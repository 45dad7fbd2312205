//! What holds of the contract as a whole.

use crate::env::LedgerView;
use crate::error::CarbonError;
use crate::history::Request;
use crate::host::{DataKeyView, EntryView, HostCallView};
use crate::records::{CreditBatchView, CreditStatus};
use crate::rules::{MintRequest, RetireRequest, TransferRequest};
use vstd::prelude::*;

verus! {

/// A call that is refused leaves the ledger as it was, and asks the network
/// neither to store anything nor to publish anything.
pub proof fn law_refused_calls_change_nothing(ledger: LedgerView, timestamp: u64, request: Request)
    requires
        ledger.outcome(request) is Err,
    ensures
        ledger.after(timestamp, request) == ledger,
        forall|i: int|
            0 <= i < ledger.calls(timestamp, request).len() ==> {
                let call = #[trigger] ledger.calls(timestamp, request)[i];
                call is RequireAuth || call is ExtendTtl
            },
{
}

/// The admin is set once: after a first `initialize` a second one is refused.
pub proof fn law_initialized_once(
    ledger: LedgerView,
    admin: Seq<u8>,
    registry_contract: Seq<u8>,
)
    ensures
        ledger.after_initialize(admin, registry_contract).initialize_outcome() == Err::<
            (),
            CarbonError,
        >(CarbonError::AlreadyInitialized),
{
}

/// Once there is an admin, no call replaces it.
pub proof fn law_admin_is_permanent(ledger: LedgerView, timestamp: u64, request: Request)
    requires
        ledger.admin is Some,
    ensures
        ledger.after(timestamp, request).admin == ledger.admin,
        ledger.after(timestamp, request).initialize_outcome() is Err,
{
}

/// Once there is an admin, it stays for good, however many calls are made.
pub proof fn law_admin_is_for_good(ledger: LedgerView, history: Seq<(u64, Request)>)
    requires
        ledger.admin is Some,
    ensures
        ledger.after_all(history).admin == ledger.admin,
        ledger.after_all(history).initialize_outcome() is Err,
    decreases history.len(),
{
    if history.len() > 0 {
        law_admin_is_for_good(ledger, history.drop_last());
    }
}

/// What a call does to the ledger is what the network does when it carries out
/// the requests of the call.
pub proof fn law_requests_carry_the_change(ledger: LedgerView, timestamp: u64, request: Request)
    ensures
        ledger.performing_all(ledger.calls(timestamp, request)) == ledger.after(timestamp, request),
{
    // No call makes more than seven requests.
    reveal_with_fuel(LedgerView::performing_from, 8);
    assert(ledger.performing_all(ledger.calls(timestamp, request)) =~= ledger.after(
        timestamp,
        request,
    ));
}

/// A call answers the same, and asks the same of the network, on any two ledgers
/// that agree on the entries that it looks at: nothing else has to be loaded.
pub proof fn law_other_entries_do_not_matter(
    one: LedgerView,
    other: LedgerView,
    timestamp: u64,
    request: Request,
)
    requires
        one.agrees_for(other, request),
    ensures
        one.outcome(request) == other.outcome(request),
        one.defined(request) == other.defined(request),
        one.calls(timestamp, request) == other.calls(timestamp, request),
{
    match request {
        Request::Initialize { .. } => {},
        Request::Mint(r) => {
            assert(one.ranges() == other.ranges());
        },
        Request::Retire(r) => {
            if one.retire_outcome(r) is Ok {
                assert(one.retired_serials(r.batch_id, r.amount) =~= other.retired_serials(
                    r.batch_id,
                    r.amount,
                ));
            }
        },
        Request::Transfer(r) => {},
    }
    assert(one.calls(timestamp, request) =~= other.calls(timestamp, request));
}

/// Whoever changes the ledger has signed: whatever changes it first demands a
/// signature, and what changes a batch that of its owner.
pub proof fn law_changes_are_signed(
    ledger: LedgerView,
    timestamp: u64,
    request: Request,
    id: Seq<u8>,
)
    requires
        ledger.after(timestamp, request) != ledger,
    ensures
        ledger.calls(timestamp, request).len() > 0,
        ledger.calls(timestamp, request)[0] is RequireAuth,
        request is Mint ==> ledger.admin == Some(ledger.calls(timestamp, request)[0]->RequireAuth_0),
        ledger.batches.contains_key(id) && ledger.after(timestamp, request).batches[id]
            != ledger.batches[id] ==> ledger.calls(timestamp, request)[0]
            == HostCallView::RequireAuth(ledger.batches[id].owner),
{
}

/// Whenever a batch is stored, it is kept alive right after.
pub proof fn law_stored_batches_are_kept_alive(
    ledger: LedgerView,
    timestamp: u64,
    request: Request,
    id: Seq<u8>,
    batch: CreditBatchView,
    i: int,
)
    requires
        0 <= i < ledger.calls(timestamp, request).len(),
        ledger.calls(timestamp, request)[i] == HostCallView::Store(
            DataKeyView::Batch(id),
            EntryView::Batch(batch),
        ),
    ensures
        i + 1 < ledger.calls(timestamp, request).len(),
        ledger.calls(timestamp, request)[i + 1] == HostCallView::keep_alive(id),
{
}

/// The numbers under which errors are reported tell the errors apart.
pub proof fn law_error_numbers_differ(one: CarbonError, other: CarbonError)
    ensures
        1 <= one.number() <= 19,
        one.number() == other.number() ==> one == other,
{
}

/// In a sound ledger a proper range is free exactly if it has no serial number
/// in common with any batch.
pub proof fn law_free_ranges_share_no_serial(ledger: LedgerView, start: u64, end: u64)
    requires
        ledger.sound(),
        start <= end,
    ensures
        ledger.serials_free(start, end) <==> forall|id: Seq<u8>, serial: u64|
            #![trigger ledger.batches.contains_key(id), ledger.batches[id].range().contains(serial)]
            ledger.batches.contains_key(id) && start <= serial <= end
                ==> !ledger.batches[id].range().contains(serial),
{
    if ledger.serials_free(start, end) {
        assert forall|id: Seq<u8>, serial: u64|
            #![trigger ledger.batches.contains_key(id), ledger.batches[id].range().contains(serial)]
            ledger.batches.contains_key(id) && start <= serial
                <= end implies !ledger.batches[id].range().contains(serial) by {
            let j = choose|j: int|
                0 <= j < ledger.ranges().len() && ledger.ranges()[j] == ledger.batches[id].range();
            assert(!ledger.ranges()[j].meets(start, end));
        }
    } else {
        let i = choose|i: int|
            0 <= i < ledger.ranges().len() && (#[trigger] ledger.ranges()[i]).meets(start, end);
        let range = ledger.ranges()[i];
        assert(ledger.some_batch_has(range));
        let id = choose|id: Seq<u8>| #[trigger]
            ledger.batches.contains_key(id) && ledger.batches[id].range() == ledger.ranges()[i];
        assert(ledger.batches[id].range() == range);
        let serial = if start <= range.start {
            range.start
        } else {
            start
        };
        assert(ledger.batches.contains_key(id));
        assert(start <= serial <= end && ledger.batches[id].range().contains(serial));
    }
}

/// Serial numbers that are taken are never freed: once a range meets a taken one,
/// it and every wider range do so for good, whatever is called.
pub proof fn law_taken_serials_stay_taken(
    ledger: LedgerView,
    history: Seq<(u64, Request)>,
    start: u64,
    end: u64,
    wider_start: u64,
    wider_end: u64,
)
    requires
        ledger.sound(),
        !ledger.serials_free(start, end),
        wider_start <= start,
        wider_end >= end,
    ensures
        !ledger.after_all(history).serials_free(wider_start, wider_end),
{
    let i = choose|i: int|
        0 <= i < ledger.ranges().len() && (#[trigger] ledger.ranges()[i]).meets(start, end);
    lemma_ranges_stay(ledger, history, i);
    assert(ledger.after_all(history).ranges()[i].meets(wider_start, wider_end));
}

/// A range that is taken stays where it stands in the registry.
proof fn lemma_ranges_stay(ledger: LedgerView, history: Seq<(u64, Request)>, i: int)
    requires
        ledger.sound(),
        0 <= i < ledger.ranges().len(),
    ensures
        i < ledger.after_all(history).ranges().len(),
        ledger.after_all(history).ranges()[i] == ledger.ranges()[i],
    decreases history.len(),
{
    if history.len() > 0 {
        lemma_ranges_stay(ledger, history.drop_last(), i);
        crate::soundness::law_histories_keep_soundness(ledger, history.drop_last());
    }
}

/// No serial number belongs to two batches of a sound ledger.
pub proof fn law_no_credit_is_counted_twice(
    ledger: LedgerView,
    one: Seq<u8>,
    other: Seq<u8>,
    serial: u64,
)
    requires
        ledger.sound(),
        ledger.batches.contains_key(one),
        ledger.batches.contains_key(other),
        ledger.batches[one].range().contains(serial),
        ledger.batches[other].range().contains(serial),
    ensures
        one == other,
{
}

/// A batch that is stored is never removed, and keeps everything but its owner
/// and its status.
pub proof fn law_batches_are_never_removed(
    ledger: LedgerView,
    timestamp: u64,
    request: Request,
    id: Seq<u8>,
)
    requires
        ledger.batches.contains_key(id),
    ensures
        ledger.after(timestamp, request).batches.contains_key(id),
        ledger.after(timestamp, request).batches[id] == (CreditBatchView {
            owner: ledger.after(timestamp, request).batches[id].owner,
            status: ledger.after(timestamp, request).batches[id].status,
            ..ledger.batches[id]
        }),
{
}

/// A batch that is stored is there for good, and keeps everything but its owner
/// and its status, however many calls are made.
pub proof fn law_batches_are_for_good(
    ledger: LedgerView,
    history: Seq<(u64, Request)>,
    id: Seq<u8>,
)
    requires
        ledger.batches.contains_key(id),
    ensures
        ledger.after_all(history).batches.contains_key(id),
        ledger.after_all(history).batches[id] == (CreditBatchView {
            owner: ledger.after_all(history).batches[id].owner,
            status: ledger.after_all(history).batches[id].status,
            ..ledger.batches[id]
        }),
    decreases history.len(),
{
    if history.len() > 0 {
        law_batches_are_for_good(ledger, history.drop_last(), id);
    }
}

/// A batch that was minted can be read: it is what was asked for, all of it is
/// in circulation, and it is the last in the list of its project.
pub proof fn law_minted_batch_can_be_read(
    ledger: LedgerView,
    timestamp: u64,
    request: MintRequest,
)
    requires
        ledger.sound(),
        ledger.mint_outcome(request) is Ok,
    ensures
        ({
            let next = ledger.after_mint(timestamp, request);
            let batch = request.batch(timestamp);
            &&& next.batches.contains_key(request.batch_id)
            &&& next.batches[request.batch_id] == batch
            &&& next.active_of(batch) == request.amount
            &&& next.credits_of(request.project_id) == ledger.credits_of(request.project_id).push(
                batch,
            )
        }),
{
    let next = ledger.after_mint(timestamp, request);
    let batch = request.batch(timestamp);
    let project = request.project_id;
    assert(!ledger.retired.contains_key(request.batch_id));
    crate::soundness::law_sound_ledgers_stay_sound(ledger, timestamp, Request::Mint(request));
    law_project_credits_are_complete(ledger, project);
    law_project_credits_are_complete(next, project);
    assert(next.ids_of(project) == ledger.ids_of(project).push(request.batch_id));
    assert forall|i: int| 0 <= i < ledger.ids_of(project).len() implies next.credits_of(project)[i]
        == #[trigger] ledger.credits_of(project)[i] by {
        assert(ledger.batches.contains_key(ledger.ids_of(project)[i]));
        assert(next.ids_of(project)[i] == ledger.ids_of(project)[i]);
    }
    assert(next.credits_of(project) =~= ledger.credits_of(project).push(batch));
}

/// The batches that are read for a project are those of the project: one for
/// each that was minted, and no other.
pub proof fn law_project_credits_are_complete(ledger: LedgerView, project: Seq<u8>)
    requires
        ledger.sound(),
    ensures
        ledger.credits_of(project).len() == ledger.ids_of(project).len(),
        forall|i: int|
            0 <= i < ledger.ids_of(project).len() ==> #[trigger] ledger.credits_of(project)[i]
                == ledger.batches[ledger.ids_of(project)[i]],
        forall|i: int|
            0 <= i < ledger.credits_of(project).len() ==> (#[trigger] ledger.credits_of(
                project,
            )[i]).project_id == project,
        forall|id: Seq<u8>| #[trigger]
            ledger.batches.contains_key(id) && ledger.batches[id].project_id == project
                ==> ledger.credits_of(project).contains(ledger.batches[id]),
        forall|i: int, j: int|
            0 <= i < j < ledger.credits_of(project).len() ==> (#[trigger] ledger.credits_of(
                project,
            )[i]).batch_id != (#[trigger] ledger.credits_of(project)[j]).batch_id,
{
    let ids = ledger.ids_of(project);
    lemma_filter_keeps_all(ids, |id: Seq<u8>| ledger.batches.contains_key(id));
    assert(ledger.found_ids(project) == ids);
    assert(ids.no_duplicates());
    assert forall|id: Seq<u8>| #[trigger]
        ledger.batches.contains_key(id) && ledger.batches[id].project_id
            == project implies ledger.credits_of(project).contains(ledger.batches[id]) by {
        let i = choose|i: int| 0 <= i < ids.len() && ids[i] == id;
        assert(ledger.credits_of(project)[i] == ledger.batches[id]);
    }
    assert forall|i: int| 0 <= i < ids.len() implies (#[trigger] ledger.credits_of(
        project,
    )[i]).project_id == project && ledger.credits_of(project)[i].batch_id == ids[i] by {
        assert(ledger.batches.contains_key(ledger.ids_of(project)[i]));
    }
}

/// A filter that every item passes keeps them all.
proof fn lemma_filter_keeps_all(s: Seq<Seq<u8>>, pred: spec_fn(Seq<u8>) -> bool)
    requires
        forall|i: int| 0 <= i < s.len() ==> pred(#[trigger] s[i]),
    ensures
        s.filter(pred) == s,
    decreases s.len(),
{
    reveal(Seq::filter);
    if s.len() > 0 {
        assert forall|i: int| 0 <= i < s.drop_last().len() implies pred(
            #[trigger] s.drop_last()[i],
        ) by {
            assert(s.drop_last()[i] == s[i]);
        }
        lemma_filter_keeps_all(s.drop_last(), pred);
        assert(pred(s[s.len() - 1]));
        assert(s.drop_last().push(s.last()) =~= s);
    }
}

/// An id that is taken cannot be minted again.
pub proof fn law_taken_ids_cannot_be_minted(ledger: LedgerView, request: MintRequest)
    requires
        ledger.batches.contains_key(request.batch_id),
    ensures
        ledger.mint_outcome(request) is Err,
{
}

/// The admin can mint whatever has credits, a proper range that no batch
/// touches, a vintage year in range and an id of its own.
pub proof fn law_valid_mints_succeed(ledger: LedgerView, request: MintRequest)
    requires
        ledger.sound(),
        ledger.admin == Some(request.admin),
        request.amount > 0,
        request.serial_start <= request.serial_end,
        2000 <= request.vintage_year <= 2100,
        !ledger.batches.contains_key(request.batch_id),
        forall|id: Seq<u8>| #[trigger]
            ledger.batches.contains_key(id) ==> !ledger.batches[id].range().meets(
                request.serial_start,
                request.serial_end,
            ),
    ensures
        ledger.mint_outcome(request) == Ok::<(), CarbonError>(()),
{
    assert forall|i: int| 0 <= i < ledger.ranges().len() implies !(
    #[trigger] ledger.ranges()[i]).meets(request.serial_start, request.serial_end) by {
        assert(ledger.some_batch_has(ledger.ranges()[i]));
        let id = choose|id: Seq<u8>| #[trigger]
            ledger.batches.contains_key(id) && ledger.batches[id].range() == ledger.ranges()[i];
        assert(ledger.batches.contains_key(id));
    }
}

/// A range that is reported free is safe to mint, and one that is not is refused:
/// where all else is proper, minting succeeds exactly if the range is free, and
/// after the attempt it no longer is.
pub proof fn law_free_ranges_are_safe_to_mint(
    ledger: LedgerView,
    timestamp: u64,
    request: MintRequest,
)
    requires
        ledger.admin == Some(request.admin),
        request.amount > 0,
        request.serial_start <= request.serial_end,
        2000 <= request.vintage_year <= 2100,
        !ledger.batches.contains_key(request.batch_id),
    ensures
        ledger.mint_outcome(request) is Ok <==> ledger.serials_free(
            request.serial_start,
            request.serial_end,
        ),
        !ledger.after_mint(timestamp, request).serials_free(
            request.serial_start,
            request.serial_end,
        ),
{
    if ledger.mint_outcome(request) is Ok {
        let next = ledger.after_mint(timestamp, request);
        let last = ledger.ranges().len() as int;
        assert(next.ranges()[last].meets(request.serial_start, request.serial_end));
    }
}

/// A batch whose serial numbers touch those of another cannot be minted.
pub proof fn law_overlapping_mints_are_refused(
    ledger: LedgerView,
    request: MintRequest,
    id: Seq<u8>,
    serial: u64,
)
    requires
        ledger.sound(),
        ledger.batches.contains_key(id),
        ledger.batches[id].range().contains(serial),
        request.range().contains(serial),
    ensures
        ledger.mint_outcome(request) is Err,
{
    let j = choose|j: int|
        0 <= j < ledger.ranges().len() && ledger.ranges()[j] == ledger.batches[id].range();
    assert(ledger.ranges()[j].meets(request.serial_start, request.serial_end));
}

/// The admin is told which part of an improper request was refused.
pub proof fn law_improper_mints_are_named(ledger: LedgerView, request: MintRequest)
    requires
        ledger.admin == Some(request.admin),
    ensures
        request.amount <= 0 ==> ledger.mint_outcome(request) == Err::<(), CarbonError>(
            CarbonError::ZeroAmountNotAllowed,
        ),
        request.amount > 0 && request.serial_end < request.serial_start ==> ledger.mint_outcome(
            request,
        ) == Err::<(), CarbonError>(CarbonError::InvalidSerialRange),
        request.amount > 0 && request.serial_start <= request.serial_end && !(2000
            <= request.vintage_year <= 2100) ==> ledger.mint_outcome(request) == Err::<
            (),
            CarbonError,
        >(CarbonError::InvalidVintageYear),
{
}

/// Of every batch, what is in circulation and what is retired make up what was minted.
pub proof fn law_credits_are_conserved(ledger: LedgerView, id: Seq<u8>)
    requires
        ledger.sound(),
        ledger.batches.contains_key(id),
    ensures
        ledger.active_of(ledger.batches[id]) + ledger.retired_of(id) == ledger.batches[id].amount,
        0 <= ledger.retired_of(id) <= ledger.batches[id].amount,
{
}

/// A retirement takes its amount out of circulation, and touches no other batch.
/// The batch is fully retired if nothing is left, else partially.
pub proof fn law_retirement_takes_its_amount(
    ledger: LedgerView,
    timestamp: u64,
    request: RetireRequest,
    other: Seq<u8>,
)
    requires
        ledger.sound(),
        ledger.retire_outcome(request) is Ok,
        other != request.batch_id,
    ensures
        ({
            let next = ledger.after_retire(timestamp, request);
            let id = request.batch_id;
            let active = ledger.active_of(ledger.batches[id]);
            &&& next.retired_of(id) == ledger.retired_of(id) + request.amount
            &&& next.active_of(next.batches[id]) == active - request.amount
            &&& next.batches[id].status == (if request.amount == active {
                CreditStatus::FullyRetired
            } else {
                CreditStatus::PartiallyRetired
            })
            &&& next.retired_of(other) == ledger.retired_of(other)
            &&& next.batches.contains_key(other) == ledger.batches.contains_key(other)
            &&& next.batches[other] == ledger.batches[other]
        }),
{
}

/// The owner can retire any part of what is in circulation, under an id that has
/// no certificate, as far as serial numbers can count.
pub proof fn law_owner_can_retire(ledger: LedgerView, request: RetireRequest)
    requires
        ledger.batches.contains_key(request.batch_id),
        ledger.batches[request.batch_id].owner == request.holder,
        ledger.batches[request.batch_id].status != CreditStatus::FullyRetired,
        ledger.batches[request.batch_id].status != CreditStatus::Suspended,
        0 < request.amount <= ledger.active_of(ledger.batches[request.batch_id]),
        !ledger.retirements.contains_key(request.retirement_id),
        0 <= ledger.retired_of(request.batch_id) <= u64::MAX,
        request.amount <= u64::MAX,
    ensures
        ledger.retire_outcome(request) == Ok::<(), CarbonError>(()),
{
}

/// More than what is in circulation cannot be retired; nor can nothing, less
/// than nothing, or anything of a batch that does not exist.
pub proof fn law_improper_retirements_are_refused(ledger: LedgerView, request: RetireRequest)
    ensures
        request.amount <= 0 ==> ledger.retire_outcome(request) == Err::<(), CarbonError>(
            CarbonError::ZeroAmountNotAllowed,
        ),
        !ledger.batches.contains_key(request.batch_id) ==> ledger.retire_outcome(request) is Err,
        ledger.batches.contains_key(request.batch_id) && request.amount > ledger.active_of(
            ledger.batches[request.batch_id],
        ) ==> ledger.retire_outcome(request) is Err,
        request.amount > 0 && ledger.batches.contains_key(request.batch_id)
            && ledger.batches[request.batch_id].owner == request.holder
            && ledger.batches[request.batch_id].status != CreditStatus::FullyRetired
            && ledger.batches[request.batch_id].status != CreditStatus::Suspended && request.amount
            > ledger.active_of(ledger.batches[request.batch_id]) ==> ledger.retire_outcome(request)
            == Err::<(), CarbonError>(CarbonError::InsufficientCredits),
{
}

/// Retirement is irreversible: a counter never falls.
pub proof fn law_retirement_is_irreversible(
    ledger: LedgerView,
    timestamp: u64,
    request: Request,
    id: Seq<u8>,
)
    requires
        ledger.sound(),
    ensures
        ledger.retired_of(id) <= ledger.after(timestamp, request).retired_of(id),
{
}

/// Retirement is irreversible, however many calls are made: a counter never falls.
/// That of a batch never exceeds what was minted, which stays what it was, and a
/// batch of which credits are retired is never active again.
pub proof fn law_retirement_is_for_good(
    ledger: LedgerView,
    history: Seq<(u64, Request)>,
    id: Seq<u8>,
)
    requires
        ledger.sound(),
    ensures
        ledger.retired_of(id) <= ledger.after_all(history).retired_of(id),
        ledger.batches.contains_key(id) ==> {
            let batch = ledger.after_all(history).batches[id];
            &&& ledger.after_all(history).batches.contains_key(id)
            &&& batch.amount == ledger.batches[id].amount
            &&& ledger.after_all(history).retired_of(id) <= batch.amount
            &&& ledger.retired_of(id) > 0 ==> batch.status != CreditStatus::Active
        },
    decreases history.len(),
{
    crate::soundness::law_histories_keep_soundness(ledger, history);
    if history.len() > 0 {
        let before = history.drop_last();
        law_retirement_is_for_good(ledger, before, id);
        crate::soundness::law_histories_keep_soundness(ledger, before);
        law_retirement_is_irreversible(
            ledger.after_all(before),
            history.last().0,
            history.last().1,
            id,
        );
    }
    if ledger.batches.contains_key(id) {
        law_batches_are_for_good(ledger, history, id);
    }
}

/// A batch that is fully retired is frozen: it can neither be transferred nor
/// retired again, and no call changes it.
pub proof fn law_fully_retired_batches_are_frozen(
    ledger: LedgerView,
    timestamp: u64,
    request: Request,
    id: Seq<u8>,
    caller: Seq<u8>,
    amount: i128,
)
    requires
        ledger.batches.contains_key(id),
        ledger.batches[id].status == CreditStatus::FullyRetired,
    ensures
        ledger.use_outcome(caller, id, amount) is Err,
        amount > 0 && caller == ledger.batches[id].owner ==> ledger.use_outcome(caller, id, amount)
            == Err::<(), CarbonError>(CarbonError::AlreadyRetired),
        forall|retirement_id: Seq<u8>| #[trigger]
            ledger.retire_decision(caller, id, amount, retirement_id) == ledger.use_outcome(
                caller,
                id,
                amount,
            ),
        ledger.after(timestamp, request).batches.contains_key(id),
        ledger.after(timestamp, request).batches[id] == ledger.batches[id],
        ledger.after(timestamp, request).retired_of(id) == ledger.retired_of(id),
{
}

/// A batch that is fully retired stays so for good, whatever is called.
pub proof fn law_full_retirement_is_for_good(
    ledger: LedgerView,
    history: Seq<(u64, Request)>,
    id: Seq<u8>,
)
    requires
        ledger.batches.contains_key(id),
        ledger.batches[id].status == CreditStatus::FullyRetired,
    ensures
        ledger.after_all(history).batches.contains_key(id),
        ledger.after_all(history).batches[id] == ledger.batches[id],
        ledger.after_all(history).retired_of(id) == ledger.retired_of(id),
    decreases history.len(),
{
    if history.len() > 0 {
        law_full_retirement_is_for_good(ledger, history.drop_last(), id);
        law_fully_retired_batches_are_frozen(
            ledger.after_all(history.drop_last()),
            history.last().0,
            history.last().1,
            id,
            ledger.batches[id].owner,
            1,
        );
    }
}

/// Only the owner may transfer or retire: everyone else is refused, the admin too.
pub proof fn law_only_the_owner_uses_a_batch(
    ledger: LedgerView,
    id: Seq<u8>,
    caller: Seq<u8>,
    amount: i128,
)
    requires
        ledger.batches.contains_key(id),
        ledger.batches[id].owner != caller,
    ensures
        ledger.use_outcome(caller, id, amount) is Err,
        amount > 0 ==> ledger.use_outcome(caller, id, amount) == Err::<(), CarbonError>(
            CarbonError::UnauthorizedVerifier,
        ),
        forall|retirement_id: Seq<u8>| #[trigger]
            ledger.retire_decision(caller, id, amount, retirement_id) == ledger.use_outcome(
                caller,
                id,
                amount,
            ),
{
}

/// A transfer makes the receiver the owner, who can go on using all that is in
/// circulation, while the former owner no longer can.
pub proof fn law_transfer_hands_over(
    ledger: LedgerView,
    request: TransferRequest,
    amount: i128,
)
    requires
        ledger.transfer_outcome(request) is Ok,
    ensures
        ({
            let next = ledger.after_transfer(request);
            let id = request.batch_id;
            &&& next.batches[id].owner == request.to
            &&& next.active_of(next.batches[id]) == ledger.active_of(ledger.batches[id])
            &&& 0 < amount <= ledger.active_of(ledger.batches[id]) ==> next.use_outcome(
                request.to,
                id,
                amount,
            ) == Ok::<(), CarbonError>(())
            &&& request.from != request.to ==> next.use_outcome(request.from, id, amount) is Err
            &&& forall|retirement_id: Seq<u8>|
                request.from != request.to ==> #[trigger] next.retire_decision(
                    request.from,
                    id,
                    amount,
                    retirement_id,
                ) is Err
        }),
{
}

/// The certificate of a retirement can be read under its id.
pub proof fn law_certificate_can_be_read(
    ledger: LedgerView,
    timestamp: u64,
    request: RetireRequest,
)
    requires
        ledger.retire_outcome(request) is Ok,
    ensures
        ledger.after_retire(timestamp, request).retirements.contains_key(request.retirement_id),
        ledger.after_retire(timestamp, request).retirements[request.retirement_id]
            == ledger.certificate(timestamp, request),
        ledger.certificate(timestamp, request).retirement_id == request.retirement_id,
        ledger.certificate(timestamp, request).amount == request.amount,
{
}

/// A certificate is permanent: no call changes or replaces it.
pub proof fn law_certificates_are_permanent(
    ledger: LedgerView,
    timestamp: u64,
    request: Request,
    retirement_id: Seq<u8>,
)
    requires
        ledger.retirements.contains_key(retirement_id),
    ensures
        ledger.after(timestamp, request).retirements.contains_key(retirement_id),
        ledger.after(timestamp, request).retirements[retirement_id]
            == ledger.retirements[retirement_id],
        request matches Request::Retire(r) && r.retirement_id == retirement_id ==> ledger.outcome(
            request,
        ) is Err,
{
}

/// A certificate is permanent: however many calls are made, it is read as it was issued.
pub proof fn law_certificates_are_for_good(
    ledger: LedgerView,
    history: Seq<(u64, Request)>,
    retirement_id: Seq<u8>,
)
    requires
        ledger.retirements.contains_key(retirement_id),
    ensures
        ledger.after_all(history).retirements.contains_key(retirement_id),
        ledger.after_all(history).retirements[retirement_id] == ledger.retirements[retirement_id],
    decreases history.len(),
{
    if history.len() > 0 {
        law_certificates_are_for_good(ledger, history.drop_last(), retirement_id);
    }
}

} // verus!
