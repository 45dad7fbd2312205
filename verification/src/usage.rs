//! How calls relate, as their callers see them: what one call was given, a later
//! one gives back.

use crate::contract::CarbonCreditContract;
use crate::env::Env;
use crate::error::CarbonError;
use crate::host::{
    DataKey, DataKeyView, Entry, EntryView, Event, EventView, HostCall, HostCallView, RetiredKey,
    RetiredKeyView,
};
use crate::records::{CreditBatch, CreditStatus, RetirementCertificate, SerialRange};
use crate::text::{Address, Text};
use vstd::prelude::*;

verus! {

/// Texts and addresses are told apart by their bytes, and by nothing else.
pub proof fn law_texts_are_their_bytes(text: Text, other: Text, address: Address, another: Address)
    ensures
        text@ == text.bytes@,
        text.deep_view() == text.bytes@,
        address@ == address.strkey.bytes@,
        vstd::std_specs::cmp::PartialEqSpec::eq_spec(&text, &other) <==> text.bytes@
            == other.bytes@,
        vstd::std_specs::cmp::PartialEqSpec::eq_spec(&address, &another)
            <==> address.strkey.bytes@ == another.strkey.bytes@,
{
}

/// What contracts say of a batch, they say of its fields.
pub proof fn law_batches_show_their_fields(batch: CreditBatch)
    ensures
        batch@.batch_id == batch.batch_id.bytes@,
        batch@.project_id == batch.project_id.bytes@,
        batch@.vintage_year == batch.vintage_year,
        batch@.amount == batch.amount,
        batch@.serial_start == batch.serial_start,
        batch@.serial_end == batch.serial_end,
        batch@.issued_at == batch.issued_at,
        batch@.status == batch.status,
        batch@.metadata_cid == batch.metadata_cid.bytes@,
        batch@.owner == batch.owner.strkey.bytes@,
        batch.deep_view() == batch@,
{
}

/// What contracts say of a certificate, they say of its fields.
pub proof fn law_certificates_show_their_fields(certificate: RetirementCertificate)
    ensures
        certificate@.retirement_id == certificate.retirement_id.bytes@,
        certificate@.credit_batch_id == certificate.credit_batch_id.bytes@,
        certificate@.project_id == certificate.project_id.bytes@,
        certificate@.amount == certificate.amount,
        certificate@.retired_by == certificate.retired_by.strkey.bytes@,
        certificate@.beneficiary == certificate.beneficiary.bytes@,
        certificate@.retirement_reason == certificate.retirement_reason.bytes@,
        certificate@.vintage_year == certificate.vintage_year,
        certificate@.serial_numbers == certificate.serial_numbers@,
        certificate@.retired_at == certificate.retired_at,
        certificate@.tx_hash == certificate.tx_hash.bytes@,
        certificate.deep_view() == certificate@,
{
}

/// What contracts say of a key, they say of its kind and its id.
pub proof fn law_keys_show_their_ids(key: DataKey, counter: RetiredKey)
    ensures
        match key {
            DataKey::Batch(id) => key@ == DataKeyView::Batch(id.bytes@),
            DataKey::Retirement(id) => key@ == DataKeyView::Retirement(id.bytes@),
            DataKey::ProjectBatches(id) => key@ == DataKeyView::ProjectBatches(id.bytes@),
            DataKey::SerialRegistry => key@ == DataKeyView::SerialRegistry,
            DataKey::Admin => key@ == DataKeyView::Admin,
            DataKey::RegistryContract => key@ == DataKeyView::RegistryContract,
        },
        counter matches RetiredKey::BatchRetired(id) && counter@ == RetiredKeyView::BatchRetired(
            id.bytes@,
        ),
{
}

/// What contracts say of an entry, they say of the value that it holds.
pub proof fn law_entries_show_their_values(entry: Entry, i: int)
    ensures
        match entry {
            Entry::Address(address) => entry@ == EntryView::Address(address.strkey.bytes@),
            Entry::SerialRanges(ranges) => entry@ == EntryView::SerialRanges(ranges@),
            Entry::Batch(batch) => entry@ == EntryView::Batch(batch@),
            Entry::Certificate(certificate) => entry@ == EntryView::Certificate(certificate@),
            Entry::BatchIds(ids) => {
                &&& entry@ matches EntryView::BatchIds(shown)
                &&& shown.len() == ids.len()
                &&& 0 <= i < ids.len() ==> shown[i] == ids[i].bytes@
            },
        },
{
}

/// What contracts say of an event, they say of its parts.
pub proof fn law_events_show_their_parts(event: Event)
    ensures
        match event {
            Event::Minted {
                batch_id,
                project_id,
                amount,
                vintage_year,
                serial_start,
                serial_end,
            } => event@ == (EventView::Minted {
                batch_id: batch_id.bytes@,
                project_id: project_id.bytes@,
                amount,
                vintage_year,
                serial_start,
                serial_end,
            }),
            Event::Retired { retirement_id, batch_id, project_id, amount, holder, beneficiary } =>
            event@ == (EventView::Retired {
                retirement_id: retirement_id.bytes@,
                batch_id: batch_id.bytes@,
                project_id: project_id.bytes@,
                amount,
                holder: holder.strkey.bytes@,
                beneficiary: beneficiary.bytes@,
            }),
            Event::Transfer { batch_id, from, to, amount } => event@ == (EventView::Transfer {
                batch_id: batch_id.bytes@,
                from: from.strkey.bytes@,
                to: to.strkey.bytes@,
                amount,
            }),
        },
{
}

/// What contracts say of a request, they say of what is asked for.
pub proof fn law_requests_show_what_is_asked(call: HostCall)
    ensures
        match call {
            HostCall::RequireAuth(address) => call.deep_view() == HostCallView::RequireAuth(
                address.strkey.bytes@,
            ),
            HostCall::Store(key, entry) => call.deep_view() == HostCallView::Store(key@, entry@),
            HostCall::StoreRetired(key, amount) => call.deep_view() == HostCallView::StoreRetired(
                key@,
                amount,
            ),
            HostCall::ExtendTtl { key, threshold, extend_to } => call.deep_view() == (
            HostCallView::ExtendTtl { key: key@, threshold, extend_to }),
            HostCall::Publish(event) => call.deep_view() == HostCallView::Publish(event@),
        },
{
}

/// Whoever initializes a ledger without an admin is obeyed: the two addresses are
/// stored as they were given, and the admin can mint.
pub proof fn law_the_first_admin_can_mint(
    first: &mut Env,
    admin: Address,
    registry_contract: Address,
    initialized: Result<(), CarbonError>,
    second: &mut Env,
    project_id: Text,
    amount: i128,
    vintage_year: u32,
    batch_id: Text,
    serial_start: u64,
    serial_end: u64,
    metadata_cid: Text,
    initial_owner: Address,
    minted: Result<(), CarbonError>,
)
    requires
        call_ensures(
            CarbonCreditContract::initialize,
            (first, admin, registry_contract),
            initialized,
        ),
        old(first)@.ledger.admin is None,
        *old(second) == *final(first),
        call_ensures(
            CarbonCreditContract::mint_credits,
            (
                second,
                admin,
                project_id,
                amount,
                vintage_year,
                batch_id,
                serial_start,
                serial_end,
                metadata_cid,
                initial_owner,
            ),
            minted,
        ),
    ensures
        initialized is Ok,
        final(first)@.ledger.admin == Some(admin.strkey.bytes@),
        final(first)@.ledger.registry_contract == Some(registry_contract.strkey.bytes@),
        amount > 0 && serial_start <= serial_end && 2000 <= vintage_year <= 2100
            && !old(first)@.ledger.batches.contains_key(batch_id.bytes@) ==> minted is Ok,
{
}

/// A minted batch is read back as it was asked for.
pub proof fn law_a_minted_batch_is_read_back(
    first: &mut Env,
    admin: Address,
    project_id: Text,
    amount: i128,
    vintage_year: u32,
    batch_id: Text,
    serial_start: u64,
    serial_end: u64,
    metadata_cid: Text,
    initial_owner: Address,
    minted: Result<(), CarbonError>,
    second: &mut Env,
    read_id: Text,
    read: Result<CreditBatch, CarbonError>,
)
    requires
        call_ensures(
            CarbonCreditContract::mint_credits,
            (
                first,
                admin,
                project_id,
                amount,
                vintage_year,
                batch_id,
                serial_start,
                serial_end,
                metadata_cid,
                initial_owner,
            ),
            minted,
        ),
        minted is Ok,
        *old(second) == *final(first),
        read_id.bytes@ == batch_id.bytes@,
        call_ensures(CarbonCreditContract::get_credit_batch, (second, read_id), read),
    ensures
        read is Ok,
        read->Ok_0.batch_id.bytes@ == batch_id.bytes@,
        read->Ok_0.project_id.bytes@ == project_id.bytes@,
        read->Ok_0.vintage_year == vintage_year,
        read->Ok_0.amount == amount,
        read->Ok_0.serial_start == serial_start,
        read->Ok_0.serial_end == serial_end,
        read->Ok_0.issued_at == old(first)@.timestamp,
        read->Ok_0.status == CreditStatus::Active,
        read->Ok_0.metadata_cid.bytes@ == metadata_cid.bytes@,
        read->Ok_0.owner.strkey.bytes@ == initial_owner.strkey.bytes@,
        final(second)@.ledger == old(second)@.ledger,
{
}

/// No range that holds a serial number of a minted batch is reported free.
pub proof fn law_minted_serials_are_reported_taken(
    first: &mut Env,
    admin: Address,
    project_id: Text,
    amount: i128,
    vintage_year: u32,
    batch_id: Text,
    serial_start: u64,
    serial_end: u64,
    metadata_cid: Text,
    initial_owner: Address,
    minted: Result<(), CarbonError>,
    second: &Env,
    serial: u64,
    start: u64,
    end: u64,
    free: bool,
)
    requires
        call_ensures(
            CarbonCreditContract::mint_credits,
            (
                first,
                admin,
                project_id,
                amount,
                vintage_year,
                batch_id,
                serial_start,
                serial_end,
                metadata_cid,
                initial_owner,
            ),
            minted,
        ),
        minted is Ok,
        *second == *final(first),
        serial_start <= serial <= serial_end,
        start <= serial <= end,
        call_ensures(CarbonCreditContract::verify_serial_range, (second, start, end), free),
    ensures
        !free,
{
    let ledger = old(first)@.ledger;
    let next = final(first)@.ledger;
    assert(next.ranges().len() > 0);
    assert(next.ranges()[next.ranges().len() - 1] == (SerialRange {
        start: serial_start,
        end: serial_end,
    }));
}

/// A minted batch is shown last of its project.
pub proof fn law_a_minted_batch_is_shown_last(
    first: &mut Env,
    admin: Address,
    project_id: Text,
    amount: i128,
    vintage_year: u32,
    batch_id: Text,
    serial_start: u64,
    serial_end: u64,
    metadata_cid: Text,
    initial_owner: Address,
    minted: Result<(), CarbonError>,
    second: &mut Env,
    shown_project: Text,
    credits: Vec<CreditBatch>,
)
    requires
        call_ensures(
            CarbonCreditContract::mint_credits,
            (
                first,
                admin,
                project_id,
                amount,
                vintage_year,
                batch_id,
                serial_start,
                serial_end,
                metadata_cid,
                initial_owner,
            ),
            minted,
        ),
        minted is Ok,
        *old(second) == *final(first),
        shown_project.bytes@ == project_id.bytes@,
        call_ensures(CarbonCreditContract::get_project_credits, (second, shown_project), credits),
    ensures
        credits.len() > 0,
        credits@.last().batch_id.bytes@ == batch_id.bytes@,
        credits@.last().amount == amount,
        credits@.last().vintage_year == vintage_year,
        credits@.last().owner.strkey.bytes@ == initial_owner.strkey.bytes@,
        final(second)@.ledger == old(second)@.ledger,
{
    let next = final(first)@.ledger;
    let ids = next.ids_of(project_id@);
    reveal(Seq::filter);
    assert(ids.last() == batch_id@);
    assert(next.found_ids(project_id@).last() == batch_id@);
    assert(credits.deep_view().last() == next.batches[batch_id@]);
    assert(credits.deep_view()[credits.len() - 1] == credits[credits.len() - 1].deep_view());
}

/// A certificate that is issued says who retired how much of which batch, for
/// whom, why and when, and lists the serial numbers that were next; project and
/// vintage are those of the batch.
pub proof fn law_an_issued_certificate_tells_the_retirement(
    first: &mut Env,
    holder: Address,
    batch_id: Text,
    amount: i128,
    retirement_reason: Text,
    beneficiary: Text,
    retirement_id: Text,
    tx_hash: Text,
    retired: Result<RetirementCertificate, CarbonError>,
    i: int,
)
    requires
        old(first)@.ledger.retire_defined(holder@, batch_id@, amount, retirement_id@),
        call_ensures(
            CarbonCreditContract::retire_credits,
            (
                first,
                holder,
                batch_id,
                amount,
                retirement_reason,
                beneficiary,
                retirement_id,
                tx_hash,
            ),
            retired,
        ),
        retired is Ok,
    ensures
        old(first)@.ledger.batches.contains_key(batch_id.bytes@),
        retired->Ok_0.retirement_id.bytes@ == retirement_id.bytes@,
        retired->Ok_0.credit_batch_id.bytes@ == batch_id.bytes@,
        retired->Ok_0.amount == amount,
        retired->Ok_0.retired_by.strkey.bytes@ == holder.strkey.bytes@,
        retired->Ok_0.beneficiary.bytes@ == beneficiary.bytes@,
        retired->Ok_0.retirement_reason.bytes@ == retirement_reason.bytes@,
        retired->Ok_0.retired_at == old(first)@.timestamp,
        retired->Ok_0.tx_hash.bytes@ == tx_hash.bytes@,
        retired->Ok_0.project_id.bytes@ == old(first)@.ledger.batches[batch_id.bytes@].project_id,
        retired->Ok_0.vintage_year == old(first)@.ledger.batches[batch_id.bytes@].vintage_year,
        retired->Ok_0.serial_numbers.len() == amount,
        0 <= i < amount ==> retired->Ok_0.serial_numbers[i]
            == old(first)@.ledger.batches[batch_id.bytes@].serial_start + (
        if old(first)@.ledger.retired.contains_key(batch_id.bytes@) {
            old(first)@.ledger.retired[batch_id.bytes@] as int
        } else {
            0
        }) + i,
{
}

/// An issued certificate is read back as it was issued.
pub proof fn law_an_issued_certificate_is_read_back(
    first: &mut Env,
    holder: Address,
    batch_id: Text,
    amount: i128,
    retirement_reason: Text,
    beneficiary: Text,
    retirement_id: Text,
    tx_hash: Text,
    retired: Result<RetirementCertificate, CarbonError>,
    second: &Env,
    read_id: Text,
    read: Result<RetirementCertificate, CarbonError>,
    i: int,
)
    requires
        old(first)@.ledger.retire_defined(holder@, batch_id@, amount, retirement_id@),
        call_ensures(
            CarbonCreditContract::retire_credits,
            (
                first,
                holder,
                batch_id,
                amount,
                retirement_reason,
                beneficiary,
                retirement_id,
                tx_hash,
            ),
            retired,
        ),
        retired is Ok,
        *second == *final(first),
        read_id.bytes@ == retirement_id.bytes@,
        call_ensures(CarbonCreditContract::get_retirement_certificate, (second, read_id), read),
    ensures
        read is Ok,
        read->Ok_0.retirement_id.bytes@ == retirement_id.bytes@,
        read->Ok_0.credit_batch_id.bytes@ == batch_id.bytes@,
        read->Ok_0.amount == amount,
        read->Ok_0.retired_by.strkey.bytes@ == holder.strkey.bytes@,
        read->Ok_0.beneficiary.bytes@ == beneficiary.bytes@,
        read->Ok_0.retirement_reason.bytes@ == retirement_reason.bytes@,
        read->Ok_0.retired_at == old(first)@.timestamp,
        read->Ok_0.tx_hash.bytes@ == tx_hash.bytes@,
        read->Ok_0.project_id.bytes@ == old(first)@.ledger.batches[batch_id.bytes@].project_id,
        read->Ok_0.vintage_year == old(first)@.ledger.batches[batch_id.bytes@].vintage_year,
        read->Ok_0.serial_numbers.len() == amount,
        0 <= i < amount ==> read->Ok_0.serial_numbers[i]
            == old(first)@.ledger.batches[batch_id.bytes@].serial_start + (
        if old(first)@.ledger.retired.contains_key(batch_id.bytes@) {
            old(first)@.ledger.retired[batch_id.bytes@] as int
        } else {
            0
        }) + i,
{
}

/// Credits that are retired are no longer there to be transferred, whoever owns
/// the batch: what was retired and what is transferred never exceed together what
/// was minted. All that is left can be transferred, and the batch is then read back
/// with its new owner.
pub proof fn law_retired_credits_cannot_be_transferred(
    first: &mut Env,
    holder: Address,
    batch_id: Text,
    amount: i128,
    retirement_reason: Text,
    beneficiary: Text,
    retirement_id: Text,
    tx_hash: Text,
    retired: Result<RetirementCertificate, CarbonError>,
    second: &mut Env,
    to: Address,
    transferred_amount: i128,
    transferred: Result<(), CarbonError>,
    third: &mut Env,
    read: Result<CreditBatch, CarbonError>,
)
    requires
        old(first)@.ledger.retire_defined(holder@, batch_id@, amount, retirement_id@),
        old(first)@.ledger.batches[batch_id@].batch_id == batch_id@,
        call_ensures(
            CarbonCreditContract::retire_credits,
            (
                first,
                holder,
                batch_id,
                amount,
                retirement_reason,
                beneficiary,
                retirement_id,
                tx_hash,
            ),
            retired,
        ),
        retired is Ok,
        *old(second) == *final(first),
        old(second)@.ledger.use_defined(holder@, batch_id@, transferred_amount),
        call_ensures(
            CarbonCreditContract::transfer_credits,
            (second, holder, to, batch_id, transferred_amount),
            transferred,
        ),
        *old(third) == *final(second),
        call_ensures(CarbonCreditContract::get_credit_batch, (third, batch_id), read),
    ensures
        ({
            let minted = old(first)@.ledger.batches[batch_id.bytes@].amount;
            let earlier = if old(first)@.ledger.retired.contains_key(batch_id.bytes@) {
                old(first)@.ledger.retired[batch_id.bytes@] as int
            } else {
                0
            };
            let left = minted - earlier - amount;
            &&& 0 <= left
            &&& transferred is Ok <==> 0 < transferred_amount <= left
            &&& 0 < left < transferred_amount ==> transferred == Err::<(), CarbonError>(
                CarbonError::InsufficientCredits,
            )
            &&& left == 0 && transferred_amount > 0 ==> transferred == Err::<(), CarbonError>(
                CarbonError::AlreadyRetired,
            )
            &&& read is Ok
            &&& read->Ok_0.owner.strkey.bytes@ == (if transferred is Ok {
                to.strkey.bytes@
            } else {
                holder.strkey.bytes@
            })
            &&& read->Ok_0.status == (if left == 0 {
                CreditStatus::FullyRetired
            } else {
                CreditStatus::PartiallyRetired
            })
        }),
{
}

/// A batch that was handed over obeys its new owner, and no longer the old one.
pub proof fn law_only_the_new_owner_can_hand_on(
    first: &mut Env,
    from: Address,
    to: Address,
    batch_id: Text,
    amount: i128,
    transferred: Result<(), CarbonError>,
    second: &mut Env,
    caller: Address,
    third_party: Address,
    again: Result<(), CarbonError>,
)
    requires
        old(first)@.ledger.use_defined(from@, batch_id@, amount),
        call_ensures(
            CarbonCreditContract::transfer_credits,
            (first, from, to, batch_id, amount),
            transferred,
        ),
        transferred is Ok,
        *old(second) == *final(first),
        old(second)@.ledger.use_defined(caller@, batch_id@, amount),
        call_ensures(
            CarbonCreditContract::transfer_credits,
            (second, caller, third_party, batch_id, amount),
            again,
        ),
    ensures
        again is Ok <==> caller.strkey.bytes@ == to.strkey.bytes@,
        again is Err ==> again == Err::<(), CarbonError>(CarbonError::UnauthorizedVerifier),
{
}

/// A mint demands the signature of its caller before all else. If it succeeds, the
/// last that is asked for is that the world is told, in the words of the caller; if
/// not, nothing more is asked for.
pub proof fn law_mints_are_signed_and_told(
    env: &mut Env,
    admin: Address,
    project_id: Text,
    amount: i128,
    vintage_year: u32,
    batch_id: Text,
    serial_start: u64,
    serial_end: u64,
    metadata_cid: Text,
    initial_owner: Address,
    minted: Result<(), CarbonError>,
)
    requires
        call_ensures(
            CarbonCreditContract::mint_credits,
            (
                env,
                admin,
                project_id,
                amount,
                vintage_year,
                batch_id,
                serial_start,
                serial_end,
                metadata_cid,
                initial_owner,
            ),
            minted,
        ),
    ensures
        ({
            let earlier = old(env)@.calls;
            let calls = final(env)@.calls;
            &&& earlier.len() < calls.len()
            &&& calls.take(earlier.len() as int) == earlier
            &&& calls[earlier.len() as int] == HostCallView::RequireAuth(admin.strkey.bytes@)
            &&& minted is Err ==> calls.len() == earlier.len() + 1
            &&& minted is Ok ==> calls.last() == HostCallView::Publish(
                (EventView::Minted {
                    batch_id: batch_id.bytes@,
                    project_id: project_id.bytes@,
                    amount,
                    vintage_year,
                    serial_start,
                    serial_end,
                }),
            )
        }),
{
}

/// A retirement demands the signature of its caller before all else. If it
/// succeeds, the last that is asked for is that the world is told, in the words of
/// the caller.
pub proof fn law_retirements_are_signed_and_told(
    env: &mut Env,
    holder: Address,
    batch_id: Text,
    amount: i128,
    retirement_reason: Text,
    beneficiary: Text,
    retirement_id: Text,
    tx_hash: Text,
    retired: Result<RetirementCertificate, CarbonError>,
)
    requires
        old(env)@.ledger.retire_defined(holder@, batch_id@, amount, retirement_id@),
        call_ensures(
            CarbonCreditContract::retire_credits,
            (
                env,
                holder,
                batch_id,
                amount,
                retirement_reason,
                beneficiary,
                retirement_id,
                tx_hash,
            ),
            retired,
        ),
    ensures
        ({
            let earlier = old(env)@.calls;
            let calls = final(env)@.calls;
            &&& earlier.len() < calls.len()
            &&& calls.take(earlier.len() as int) == earlier
            &&& calls[earlier.len() as int] == HostCallView::RequireAuth(holder.strkey.bytes@)
            &&& retired is Ok ==> calls.last() == HostCallView::Publish(
                (EventView::Retired {
                    retirement_id: retirement_id.bytes@,
                    batch_id: batch_id.bytes@,
                    project_id: old(env)@.ledger.batches[batch_id.bytes@].project_id,
                    amount,
                    holder: holder.strkey.bytes@,
                    beneficiary: beneficiary.bytes@,
                }),
            )
        }),
{
}

/// A transfer demands the signature of its caller before all else. If it succeeds,
/// the last that is asked for is that the world is told, in the words of the caller.
pub proof fn law_transfers_are_signed_and_told(
    env: &mut Env,
    from: Address,
    to: Address,
    batch_id: Text,
    amount: i128,
    transferred: Result<(), CarbonError>,
)
    requires
        old(env)@.ledger.use_defined(from@, batch_id@, amount),
        call_ensures(
            CarbonCreditContract::transfer_credits,
            (env, from, to, batch_id, amount),
            transferred,
        ),
    ensures
        ({
            let earlier = old(env)@.calls;
            let calls = final(env)@.calls;
            &&& earlier.len() < calls.len()
            &&& calls.take(earlier.len() as int) == earlier
            &&& calls[earlier.len() as int] == HostCallView::RequireAuth(from.strkey.bytes@)
            &&& transferred is Ok ==> calls.last() == HostCallView::Publish(
                (EventView::Transfer {
                    batch_id: batch_id.bytes@,
                    from: from.strkey.bytes@,
                    to: to.strkey.bytes@,
                    amount,
                }),
            )
        }),
{
}

} // verus!
