//! The serial numbers of retired credits.

use crate::env::LedgerView;
use crate::history::Request;
use crate::records::RetirementCertificateView;
use crate::rules::{MintRequest, RetireRequest};
use vstd::prelude::*;

verus! {

impl MintRequest {
    /// Whether the request claims a serial number for each credit.
    pub open spec fn numbered(self) -> bool {
        self.amount <= self.serial_end - self.serial_start + 1
    }
}

impl LedgerView {
    /// Whether every batch has a serial number for each of its credits.
    pub open spec fn numbered(self) -> bool {
        forall|id: Seq<u8>| #[trigger]
            self.batches.contains_key(id) ==> self.batches[id].amount <= self.batches[id].serial_end
                - self.batches[id].serial_start + 1
    }

    /// Whether no batch has more credits retired than it has serial numbers.
    pub open spec fn within_serials(self) -> bool {
        forall|id: Seq<u8>| #[trigger]
            self.batches.contains_key(id) ==> self.retired_of(id) <= self.batches[id].serial_end
                - self.batches[id].serial_start + 1
    }

    /// Whether the serial numbers of a certificate are among those that were
    /// retired of its batch.
    pub open spec fn certificate_sound(self, certificate: RetirementCertificateView) -> bool {
        let id = certificate.credit_batch_id;
        &&& self.batches.contains_key(id)
        &&& certificate.serial_numbers.no_duplicates()
        &&& forall|i: int|
            0 <= i < certificate.serial_numbers.len() ==> self.batches[id].serial_start
                <= #[trigger] certificate.serial_numbers[i] < self.batches[id].serial_start
                + self.retired_of(id)
    }

    /// Whether every certificate is sound, and no two of them share a serial number.
    pub open spec fn certificates_sound(self) -> bool {
        &&& forall|id: Seq<u8>| #[trigger]
            self.retirements.contains_key(id) ==> self.certificate_sound(self.retirements[id])
        &&& forall|one: Seq<u8>, other: Seq<u8>, i: int, j: int|
            #![trigger self.retirements[one].serial_numbers[i], self.retirements[other].serial_numbers[j]]
            self.retirements.contains_key(one) && self.retirements.contains_key(other) && one
                != other && 0 <= i < self.retirements[one].serial_numbers.len() && 0 <= j
                < self.retirements[other].serial_numbers.len()
                ==> self.retirements[one].serial_numbers[i]
                != self.retirements[other].serial_numbers[j]
    }
}

/// A retirement takes one serial number for each retired credit: the next ones of
/// the batch, in order, as long as the batch has so many.
pub proof fn law_retirement_takes_the_next_serials(
    ledger: LedgerView,
    timestamp: u64,
    request: RetireRequest,
)
    requires
        ledger.sound(),
        ledger.retire_outcome(request) is Ok,
        ledger.retired_of(request.batch_id) + request.amount
            <= ledger.batches[request.batch_id].serial_end
            - ledger.batches[request.batch_id].serial_start + 1,
    ensures
        ({
            let batch = ledger.batches[request.batch_id];
            let serials = ledger.certificate(timestamp, request).serial_numbers;
            &&& serials.len() == request.amount
            &&& forall|i: int|
                0 <= i < serials.len() ==> #[trigger] serials[i] == batch.serial_start
                    + ledger.retired_of(request.batch_id) + i
            &&& forall|i: int|
                0 <= i < serials.len() ==> batch.range().contains(#[trigger] serials[i])
            &&& serials.no_duplicates()
        }),
{
    assert(ledger.batches.contains_key(request.batch_id));
}

/// No serial number is retired twice: a call keeps the certificates apart, as
/// long as no batch then has more credits retired than it has serial numbers.
pub proof fn law_no_serial_is_retired_twice(
    ledger: LedgerView,
    timestamp: u64,
    request: Request,
)
    requires
        ledger.sound(),
        ledger.certificates_sound(),
        ledger.after(timestamp, request).within_serials(),
    ensures
        ledger.after(timestamp, request).certificates_sound(),
{
    let next = ledger.after(timestamp, request);
    if ledger.outcome(request) is Ok {
        if let Request::Retire(r) = request {
            lemma_retire_keeps_certificates(ledger, timestamp, r);
        } else {
            assert forall|id: Seq<u8>| #[trigger]
                next.retirements.contains_key(id) implies next.certificate_sound(
                next.retirements[id],
            ) by {
                assert(ledger.certificate_sound(ledger.retirements[id]));
            }
        }
    }
}

/// What is within the serial numbers after a call was so before.
proof fn lemma_within_serials_before(ledger: LedgerView, timestamp: u64, request: Request)
    requires
        ledger.sound(),
        ledger.after(timestamp, request).within_serials(),
    ensures
        ledger.within_serials(),
{
    assert forall|id: Seq<u8>| #[trigger]
        ledger.batches.contains_key(id) implies ledger.retired_of(id)
        <= ledger.batches[id].serial_end - ledger.batches[id].serial_start + 1 by {
        crate::laws::law_batches_are_never_removed(ledger, timestamp, request, id);
        crate::laws::law_retirement_is_irreversible(ledger, timestamp, request, id);
    }
}

proof fn lemma_retire_keeps_certificates(
    ledger: LedgerView,
    timestamp: u64,
    request: RetireRequest,
)
    requires
        ledger.sound(),
        ledger.certificates_sound(),
        ledger.retire_outcome(request) is Ok,
        ledger.after_retire(timestamp, request).within_serials(),
    ensures
        ledger.after_retire(timestamp, request).certificates_sound(),
{
    let next = ledger.after_retire(timestamp, request);
    let new = ledger.certificate(timestamp, request);
    let batch_id = request.batch_id;
    assert(ledger.batches.contains_key(batch_id) && next.batches.contains_key(batch_id));
    assert(next.retired_of(batch_id) == ledger.retired_of(batch_id) + request.amount);
    law_retirement_takes_the_next_serials(ledger, timestamp, request);
    lemma_within_serials_before(ledger, timestamp, Request::Retire(request));
    assert forall|id: Seq<u8>| #[trigger]
        next.retirements.contains_key(id) implies next.certificate_sound(next.retirements[id]) by {
        if id != request.retirement_id {
            assert(ledger.retirements.contains_key(id));
            let c = ledger.retirements[id];
            assert(ledger.certificate_sound(c));
            assert(next.retired_of(c.credit_batch_id) >= ledger.retired_of(c.credit_batch_id));
        }
    }
    assert forall|id: Seq<u8>, i: int, j: int|
        #![trigger ledger.retirements[id].serial_numbers[i], new.serial_numbers[j]]
        ledger.retirements.contains_key(id) && 0 <= i < ledger.retirements[id].serial_numbers.len()
            && 0 <= j < new.serial_numbers.len() implies ledger.retirements[id].serial_numbers[i]
        != new.serial_numbers[j] by {
        let c = ledger.retirements[id];
        assert(ledger.certificate_sound(c));
        let serial = c.serial_numbers[i];
        let old_id = c.credit_batch_id;
        assert(ledger.batches.contains_key(old_id));
        assert(ledger.batches[old_id].range().contains(serial));
        assert(ledger.batches[batch_id].range().contains(new.serial_numbers[j]));
        if old_id != batch_id {
            if serial == new.serial_numbers[j] {
                crate::laws::law_no_credit_is_counted_twice(ledger, old_id, batch_id, serial);
            }
        }
    }
}

/// Whatever was called since the ledger was empty, no serial number was retired
/// twice, as long as no batch has more credits retired than it has serial numbers.
pub proof fn law_reachable_certificates_are_sound(history: Seq<(u64, Request)>)
    requires
        LedgerView::empty().after_all(history).within_serials(),
    ensures
        LedgerView::empty().after_all(history).certificates_sound(),
    decreases history.len(),
{
    if history.len() > 0 {
        let before = history.drop_last();
        let ledger = LedgerView::empty().after_all(before);
        crate::soundness::law_reachable_ledgers_are_sound(before);
        lemma_within_serials_before(ledger, history.last().0, history.last().1);
        law_reachable_certificates_are_sound(before);
        law_no_serial_is_retired_twice(ledger, history.last().0, history.last().1);
    }
}

/// Where every batch was minted with a serial number for each credit, no serial
/// number was ever retired twice.
pub proof fn law_numbered_credits_are_retired_once(history: Seq<(u64, Request)>)
    requires
        forall|i: int| #[trigger]
            LedgerView::empty().succeeds_at(history, i) ==> (history[i].1 matches Request::Mint(r)
                ==> r.numbered()),
    ensures
        LedgerView::empty().after_all(history).numbered(),
        LedgerView::empty().after_all(history).within_serials(),
        LedgerView::empty().after_all(history).certificates_sound(),
{
    let start = LedgerView::empty();
    let ledger = start.after_all(history);
    assert forall|id: Seq<u8>| #[trigger]
        ledger.batches.contains_key(id) implies ledger.batches[id].amount
        <= ledger.batches[id].serial_end - ledger.batches[id].serial_start + 1 by {
        crate::chronicle::law_batches_come_from_mints(history, id);
        let i = choose|i: int| start.mints_at(history, i, id);
        assert(start.succeeds_at(history, i));
    }
    crate::soundness::law_reachable_ledgers_are_sound(history);
    law_reachable_certificates_are_sound(history);
}

/// In a sound ledger the credits of a batch can be counted, a transfer never
/// overflows, and a retirement does not where the batch could number every one
/// of its credits below `u64::MAX`.
pub proof fn law_sound_ledgers_do_not_overflow(
    ledger: LedgerView,
    caller: Seq<u8>,
    batch_id: Seq<u8>,
    amount: i128,
    retirement_id: Seq<u8>,
)
    requires
        ledger.sound(),
    ensures
        ledger.batches.contains_key(batch_id) ==> ledger.countable(ledger.batches[batch_id]),
        ledger.use_defined(caller, batch_id, amount),
        ledger.batches.contains_key(batch_id) ==> ledger.batches[batch_id].serial_start
            + ledger.batches[batch_id].amount <= u64::MAX ==> ledger.retire_defined(
            caller,
            batch_id,
            amount,
            retirement_id,
        ),
        !ledger.batches.contains_key(batch_id) ==> ledger.retire_defined(
            caller,
            batch_id,
            amount,
            retirement_id,
        ),
{
}

} // verus!
