//! What each call does, told by its arguments and by the stored entries alone.

use crate::env::{EnvView, LedgerView};
use crate::error::CarbonError;
use crate::host::{DataKeyView, EntryView, EventView, HostCallView, RetiredKeyView};
use crate::records::{CreditBatchView, CreditStatus, RetirementCertificateView, SerialRange};
use crate::rules::{MintRequest, RetireRequest, TransferRequest};
use vstd::prelude::*;

verus! {

/// To begin with nothing is stored.
pub proof fn law_nothing_is_stored_at_first(id: Seq<u8>)
    ensures
        LedgerView::empty().admin is None,
        LedgerView::empty().registry_contract is None,
        LedgerView::empty().serial_registry is None,
        !LedgerView::empty().batches.contains_key(id),
        !LedgerView::empty().retirements.contains_key(id),
        !LedgerView::empty().project_batches.contains_key(id),
        !LedgerView::empty().retired.contains_key(id),
{
}

/// A call leaves the time as it is, and adds its requests to those before it.
pub proof fn law_calls_go_on_from_what_was(
    env: EnvView,
    ledger: LedgerView,
    calls: Seq<HostCallView>,
    i: int,
)
    ensures
        env.moved_to(ledger, calls).ledger == ledger,
        env.moved_to(ledger, calls).timestamp == env.timestamp,
        env.moved_to(ledger, calls).calls.len() == env.calls.len() + calls.len(),
        0 <= i < env.calls.len() ==> env.moved_to(ledger, calls).calls[i] == env.calls[i],
        0 <= i < calls.len() ==> env.moved_to(ledger, calls).calls[env.calls.len() + i] == calls[i],
{
}

/// A batch is kept alive for thirty days, with a ledger every five seconds.
pub proof fn law_batches_live_for_thirty_days(id: Seq<u8>)
    ensures
        HostCallView::keep_alive(id) matches HostCallView::ExtendTtl { key, threshold, extend_to }
            && key == DataKeyView::Batch(id) && threshold == extend_to && 5 * extend_to == 30 * 24
            * 60 * 60,
{
}

/// What is in circulation of a batch is what was minted less what is retired of
/// it, and nothing once the batch is fully retired. It can be counted exactly if
/// that is a number that fits.
pub proof fn law_circulation_is_what_is_left(ledger: LedgerView, batch: CreditBatchView)
    ensures
        batch.status == CreditStatus::FullyRetired ==> ledger.active_of(batch) == 0,
        batch.status != CreditStatus::FullyRetired && ledger.retired.contains_key(batch.batch_id)
            ==> ledger.active_of(batch) + ledger.retired[batch.batch_id] == batch.amount,
        batch.status != CreditStatus::FullyRetired && !ledger.retired.contains_key(batch.batch_id)
            ==> ledger.active_of(batch) == batch.amount,
        ledger.countable(batch) <==> (batch.status != CreditStatus::FullyRetired
            && ledger.retired.contains_key(batch.batch_id) ==> i128::MIN <= batch.amount
            - ledger.retired[batch.batch_id] <= i128::MAX),
{
}

/// A range is free exactly if every range that is taken ends before it or begins
/// after it.
pub proof fn law_free_means_apart_from_all_that_is_taken(ledger: LedgerView, start: u64, end: u64)
    ensures
        ledger.serial_registry is None ==> ledger.serials_free(start, end),
        ledger.serial_registry matches Some(taken) ==> (ledger.serials_free(start, end) <==> forall|
            i: int,
        |
            0 <= i < taken.len() ==> (#[trigger] taken[i]).end < start || end < taken[i].start),
{
    if let Some(taken) = ledger.serial_registry {
        assert(ledger.ranges() == taken);
        if ledger.serials_free(start, end) {
            assert forall|i: int| 0 <= i < taken.len() implies (#[trigger] taken[i]).end < start
                || end < taken[i].start by {
                assert(!ledger.ranges()[i].meets(start, end));
            }
        } else {
            let i = choose|i: int|
                0 <= i < ledger.ranges().len() && (#[trigger] ledger.ranges()[i]).meets(start, end);
            assert(!(taken[i].end < start || end < taken[i].start));
        }
    }
}

/// A call that is refused leaves everything as it was.
pub proof fn law_refusals_leave_everything(
    ledger: LedgerView,
    timestamp: u64,
    mint: MintRequest,
    retire: RetireRequest,
    transfer: TransferRequest,
)
    ensures
        ledger.mint_outcome(mint) is Err ==> ledger.after_mint(timestamp, mint) == ledger,
        ledger.retire_outcome(retire) is Err ==> ledger.after_retire(timestamp, retire) == ledger,
        ledger.transfer_outcome(transfer) is Err ==> ledger.after_transfer(transfer) == ledger,
{
}

/// Initializing succeeds exactly as long as there is no admin. The two addresses
/// are then stored, each in its place, no serial number is taken, and all else
/// stays.
pub proof fn law_initializing_stores_both_addresses(
    ledger: LedgerView,
    admin: Seq<u8>,
    registry_contract: Seq<u8>,
)
    ensures
        ({
            let next = ledger.after_initialize(admin, registry_contract);
            &&& ledger.admin is None ==> {
                &&& ledger.initialize_outcome() == Ok::<(), CarbonError>(())
                &&& next.admin == Some(admin)
                &&& next.registry_contract == Some(registry_contract)
                &&& next.serial_registry == Some(Seq::<SerialRange>::empty())
                &&& next.batches == ledger.batches
                &&& next.retirements == ledger.retirements
                &&& next.project_batches == ledger.project_batches
                &&& next.retired == ledger.retired
            }
            &&& ledger.admin is Some ==> {
                &&& ledger.initialize_outcome() == Err::<(), CarbonError>(
                    CarbonError::AlreadyInitialized,
                )
                &&& next == ledger
            }
        }),
{
}

/// Initializing asks for the signature of the admin, and then has the two
/// addresses and an empty list of serial ranges stored; a refused attempt asks
/// for nothing.
pub proof fn law_initializing_asks_for_three_entries(
    ledger: LedgerView,
    admin: Seq<u8>,
    registry_contract: Seq<u8>,
)
    ensures
        ({
            let calls = ledger.initialize_calls(admin, registry_contract);
            &&& ledger.admin is Some ==> calls.len() == 0
            &&& ledger.admin is None ==> {
                &&& calls.len() == 4
                &&& calls[0] == HostCallView::RequireAuth(admin)
                &&& calls[1] == HostCallView::Store(DataKeyView::Admin, EntryView::Address(admin))
                &&& calls[2] == HostCallView::Store(
                    DataKeyView::RegistryContract,
                    EntryView::Address(registry_contract),
                )
                &&& calls[3] == HostCallView::Store(
                    DataKeyView::SerialRegistry,
                    EntryView::SerialRanges(Seq::<SerialRange>::empty()),
                )
            }
        }),
{
}

/// When minting succeeds, and which error comes when it does not: the caller has
/// to be the admin, there have to be credits, the serial range has to be in order,
/// the vintage has to lie between 2000 and 2100, and neither the id nor any of the
/// serial numbers may be taken.
pub proof fn law_mint_answers(ledger: LedgerView, request: MintRequest)
    ensures
        ({
            let by_admin = ledger.admin == Some(request.admin);
            let some = request.amount > 0;
            let ordered = request.serial_start <= request.serial_end;
            let vintage = 2000 <= request.vintage_year && request.vintage_year <= 2100;
            let id_taken = ledger.batches.contains_key(request.batch_id);
            let apart = ledger.serial_registry matches Some(taken) ==> forall|i: int|
                0 <= i < taken.len() ==> (#[trigger] taken[i]).end < request.serial_start
                    || request.serial_end < taken[i].start;
            let outcome = ledger.mint_outcome(request);
            &&& outcome is Ok <==> by_admin && some && ordered && vintage && !id_taken && apart
            &&& outcome == Err::<(), CarbonError>(CarbonError::UnauthorizedVerifier) <==> !by_admin
            &&& outcome == Err::<(), CarbonError>(CarbonError::ZeroAmountNotAllowed) <==> by_admin
                && !some
            &&& outcome == Err::<(), CarbonError>(CarbonError::InvalidSerialRange) <==> by_admin
                && some && !ordered
            &&& outcome == Err::<(), CarbonError>(CarbonError::InvalidVintageYear) <==> by_admin
                && some && ordered && !vintage
            &&& outcome == Err::<(), CarbonError>(CarbonError::SerialNumberConflict) <==> by_admin
                && some && ordered && vintage && (id_taken || !apart)
        }),
{
    law_free_means_apart_from_all_that_is_taken(ledger, request.serial_start, request.serial_end);
}

/// A minted batch is recorded as asked for: every field is that of the request,
/// it is active, and it dates from the time of the call.
pub proof fn law_mint_records_what_was_asked_for(
    ledger: LedgerView,
    timestamp: u64,
    request: MintRequest,
)
    requires
        ledger.mint_outcome(request) is Ok,
    ensures
        ({
            let next = ledger.after_mint(timestamp, request);
            let batch = next.batches[request.batch_id];
            &&& next.batches.contains_key(request.batch_id)
            &&& batch.batch_id == request.batch_id
            &&& batch.project_id == request.project_id
            &&& batch.vintage_year == request.vintage_year
            &&& batch.amount == request.amount
            &&& batch.serial_start == request.serial_start
            &&& batch.serial_end == request.serial_end
            &&& batch.issued_at == timestamp
            &&& batch.status == CreditStatus::Active
            &&& batch.metadata_cid == request.metadata_cid
            &&& batch.owner == request.initial_owner
        }),
{
}

/// Minting reserves the whole serial range: no range that holds any of its numbers
/// is free any more.
pub proof fn law_mint_reserves_every_serial(
    ledger: LedgerView,
    timestamp: u64,
    request: MintRequest,
    serial: u64,
    start: u64,
    end: u64,
)
    requires
        ledger.mint_outcome(request) is Ok,
        request.serial_start <= serial <= request.serial_end,
        start <= serial <= end,
    ensures
        !ledger.after_mint(timestamp, request).serials_free(start, end),
{
    let next = ledger.after_mint(timestamp, request);
    law_mint_takes_one_range(ledger, timestamp, request);
    law_free_means_apart_from_all_that_is_taken(next, start, end);
    let taken = next.serial_registry->0;
    let _ = taken[taken.len() - 1];
}

/// Minting reserves no other serial number: a range apart from the minted one is
/// free just as it was before.
pub proof fn law_mint_leaves_other_serials_free(
    ledger: LedgerView,
    timestamp: u64,
    request: MintRequest,
    start: u64,
    end: u64,
)
    requires
        ledger.mint_outcome(request) is Ok,
        end < request.serial_start || request.serial_end < start,
    ensures
        ledger.after_mint(timestamp, request).serials_free(start, end) == ledger.serials_free(
            start,
            end,
        ),
{
    let next = ledger.after_mint(timestamp, request);
    law_mint_takes_one_range(ledger, timestamp, request);
    law_free_means_apart_from_all_that_is_taken(ledger, start, end);
    law_free_means_apart_from_all_that_is_taken(next, start, end);
    let now = next.serial_registry->0;
    if let Some(taken) = ledger.serial_registry {
        assert forall|i: int| 0 <= i < taken.len() implies #[trigger] now[i] == taken[i] by {}
        if next.serials_free(start, end) {
            assert forall|i: int| 0 <= i < taken.len() implies (#[trigger] taken[i]).end < start
                || end < taken[i].start by {
                assert(now[i] == taken[i]);
            }
        }
    }
}

/// Minting takes one range more, the one that was asked for, and no other.
pub proof fn law_mint_takes_one_range(ledger: LedgerView, timestamp: u64, request: MintRequest)
    requires
        ledger.mint_outcome(request) is Ok,
    ensures
        ({
            let next = ledger.after_mint(timestamp, request);
            &&& next.serial_registry is Some
            &&& next.serial_registry->0.len() == (match ledger.serial_registry {
                Some(taken) => taken.len() + 1,
                None => 1,
            })
            &&& next.serial_registry->0.last().start == request.serial_start
            &&& next.serial_registry->0.last().end == request.serial_end
            &&& ledger.serial_registry matches Some(taken)
                ==> next.serial_registry->0.drop_last() == taken
        }),
{
    let next = ledger.after_mint(timestamp, request);
    assert(next.serial_registry->0.drop_last() =~= ledger.ranges());
}

/// Minting lists the batch last for its project, leaves the lists of the other
/// projects alone, and changes nothing else.
pub proof fn law_mint_changes_nothing_else(
    ledger: LedgerView,
    timestamp: u64,
    request: MintRequest,
    other: Seq<u8>,
)
    requires
        ledger.mint_outcome(request) is Ok,
    ensures
        ({
            let next = ledger.after_mint(timestamp, request);
            let project = request.project_id;
            &&& next.project_batches.contains_key(project)
            &&& next.project_batches[project] == (if ledger.project_batches.contains_key(project) {
                ledger.project_batches[project].push(request.batch_id)
            } else {
                seq![request.batch_id]
            })
            &&& other != project ==> {
                &&& next.project_batches.contains_key(other)
                    == ledger.project_batches.contains_key(other)
                &&& next.project_batches[other] == ledger.project_batches[other]
            }
            &&& other != request.batch_id ==> {
                &&& next.batches.contains_key(other) == ledger.batches.contains_key(other)
                &&& next.batches[other] == ledger.batches[other]
            }
            &&& next.admin == ledger.admin
            &&& next.registry_contract == ledger.registry_contract
            &&& next.retirements == ledger.retirements
            &&& next.retired == ledger.retired
        }),
{
}

/// What a mint asks of the network: first the signature of the caller, and if it
/// succeeds, that what is now recorded is stored, that the batch lives on, and
/// that the world is told.
pub proof fn law_mint_asks(ledger: LedgerView, timestamp: u64, request: MintRequest)
    ensures
        ({
            let next = ledger.after_mint(timestamp, request);
            let calls = ledger.mint_calls(timestamp, request);
            &&& calls.len() == (if ledger.mint_outcome(request) is Ok {
                6int
            } else {
                1
            })
            &&& calls[0] == HostCallView::RequireAuth(request.admin)
            &&& ledger.mint_outcome(request) is Ok ==> {
                &&& calls[1] == HostCallView::Store(
                    DataKeyView::SerialRegistry,
                    EntryView::SerialRanges(next.serial_registry->0),
                )
                &&& calls[2] == HostCallView::Store(
                    DataKeyView::Batch(request.batch_id),
                    EntryView::Batch(next.batches[request.batch_id]),
                )
                &&& calls[3] == (HostCallView::ExtendTtl {
                    key: DataKeyView::Batch(request.batch_id),
                    threshold: 518_400,
                    extend_to: 518_400,
                })
                &&& calls[4] == HostCallView::Store(
                    DataKeyView::ProjectBatches(request.project_id),
                    EntryView::BatchIds(next.project_batches[request.project_id]),
                )
                &&& calls[5] == HostCallView::Publish(
                    (EventView::Minted {
                        batch_id: request.batch_id,
                        project_id: request.project_id,
                        amount: request.amount,
                        vintage_year: request.vintage_year,
                        serial_start: request.serial_start,
                        serial_end: request.serial_end,
                    }),
                )
            }
        }),
{
}

/// When a transfer succeeds, and which error comes when it does not: there have to
/// be credits and such a batch, only its owner may transfer it, it may be neither
/// fully retired nor suspended, and no more than what was minted less what is
/// retired can be transferred.
pub proof fn law_transfer_answers(ledger: LedgerView, request: TransferRequest)
    ensures
        ({
            let batch = ledger.batches[request.batch_id];
            let retired = if ledger.retired.contains_key(batch.batch_id) {
                ledger.retired[batch.batch_id] as int
            } else {
                0
            };
            let some = request.amount > 0;
            let known = some && ledger.batches.contains_key(request.batch_id);
            let owned = known && batch.owner == request.from;
            let left = owned && batch.status != CreditStatus::FullyRetired;
            let usable = left && batch.status != CreditStatus::Suspended;
            let enough = request.amount <= batch.amount - retired;
            let outcome = ledger.transfer_outcome(request);
            &&& outcome is Ok <==> usable && enough
            &&& outcome == Err::<(), CarbonError>(CarbonError::ZeroAmountNotAllowed) <==> !some
            &&& outcome == Err::<(), CarbonError>(CarbonError::ProjectNotFound) <==> some && !known
            &&& outcome == Err::<(), CarbonError>(CarbonError::UnauthorizedVerifier) <==> known
                && !owned
            &&& outcome == Err::<(), CarbonError>(CarbonError::AlreadyRetired) <==> owned && !left
            &&& outcome == Err::<(), CarbonError>(CarbonError::ProjectSuspended) <==> left
                && !usable
            &&& outcome == Err::<(), CarbonError>(CarbonError::InsufficientCredits) <==> usable
                && !enough
        }),
{
}

/// A transfer gives the batch its new owner. The rest of the batch stays, and so
/// does all else.
pub proof fn law_transfer_changes_the_owner_alone(
    ledger: LedgerView,
    request: TransferRequest,
    other: Seq<u8>,
)
    requires
        ledger.transfer_outcome(request) is Ok,
    ensures
        ({
            let next = ledger.after_transfer(request);
            let was = ledger.batches[request.batch_id];
            let batch = next.batches[request.batch_id];
            &&& next.batches.contains_key(request.batch_id)
            &&& batch.owner == request.to
            &&& batch.batch_id == was.batch_id
            &&& batch.project_id == was.project_id
            &&& batch.vintage_year == was.vintage_year
            &&& batch.amount == was.amount
            &&& batch.serial_start == was.serial_start
            &&& batch.serial_end == was.serial_end
            &&& batch.issued_at == was.issued_at
            &&& batch.status == was.status
            &&& batch.metadata_cid == was.metadata_cid
            &&& other != request.batch_id ==> {
                &&& next.batches.contains_key(other) == ledger.batches.contains_key(other)
                &&& next.batches[other] == ledger.batches[other]
            }
            &&& next.admin == ledger.admin
            &&& next.registry_contract == ledger.registry_contract
            &&& next.serial_registry == ledger.serial_registry
            &&& next.retirements == ledger.retirements
            &&& next.project_batches == ledger.project_batches
            &&& next.retired == ledger.retired
        }),
{
}

/// What a transfer asks of the network: first the signature of the giver, then,
/// once the batch is found, that it lives on, and if it succeeds, that the batch is
/// stored, that it lives on again, and that the world is told.
pub proof fn law_transfer_asks(ledger: LedgerView, request: TransferRequest)
    ensures
        ({
            let calls = ledger.transfer_calls(request);
            let id = request.batch_id;
            let alive = HostCallView::ExtendTtl {
                key: DataKeyView::Batch(id),
                threshold: 518_400,
                extend_to: 518_400,
            };
            let found = request.amount > 0 && ledger.batches.contains_key(id);
            &&& calls.len() == (if ledger.transfer_outcome(request) is Ok {
                5int
            } else if found {
                2
            } else {
                1
            })
            &&& calls[0] == HostCallView::RequireAuth(request.from)
            &&& found ==> calls[1] == alive
            &&& ledger.transfer_outcome(request) is Ok ==> {
                &&& calls[2] == HostCallView::Store(
                    DataKeyView::Batch(id),
                    EntryView::Batch(ledger.after_transfer(request).batches[id]),
                )
                &&& calls[3] == alive
                &&& calls[4] == HostCallView::Publish(
                    (EventView::Transfer {
                        batch_id: id,
                        from: request.from,
                        to: request.to,
                        amount: request.amount,
                    }),
                )
            }
        }),
{
}

/// When a retirement succeeds, and which error comes when it does not: there have
/// to be credits and such a batch, only its owner may retire it, it may be neither
/// fully retired nor suspended, no more than what was minted less what is retired
/// can be retired, the id of the retirement has to be new, and what is retired
/// before and now has to be countable by serial numbers.
pub proof fn law_retire_answers(ledger: LedgerView, request: RetireRequest)
    ensures
        ({
            let batch = ledger.batches[request.batch_id];
            let retired = if ledger.retired.contains_key(batch.batch_id) {
                ledger.retired[batch.batch_id] as int
            } else {
                0
            };
            let counter = if ledger.retired.contains_key(request.batch_id) {
                ledger.retired[request.batch_id] as int
            } else {
                0
            };
            let some = request.amount > 0;
            let known = some && ledger.batches.contains_key(request.batch_id);
            let owned = known && batch.owner == request.holder;
            let left = owned && batch.status != CreditStatus::FullyRetired;
            let usable = left && batch.status != CreditStatus::Suspended;
            let enough = usable && request.amount <= batch.amount - retired;
            let new = enough && !ledger.retirements.contains_key(request.retirement_id);
            let countable = 0 <= counter && counter <= u64::MAX && request.amount <= u64::MAX;
            let outcome = ledger.retire_outcome(request);
            &&& outcome is Ok <==> new && countable
            &&& outcome == Err::<(), CarbonError>(CarbonError::ZeroAmountNotAllowed) <==> !some
            &&& outcome == Err::<(), CarbonError>(CarbonError::ProjectNotFound) <==> some && !known
            &&& outcome == Err::<(), CarbonError>(CarbonError::UnauthorizedVerifier) <==> known
                && !owned
            &&& outcome == Err::<(), CarbonError>(CarbonError::AlreadyRetired) <==> owned && !left
            &&& outcome == Err::<(), CarbonError>(CarbonError::ProjectSuspended) <==> left
                && !usable
            &&& outcome == Err::<(), CarbonError>(CarbonError::InsufficientCredits) <==> usable
                && !enough
            &&& outcome == Err::<(), CarbonError>(CarbonError::RetirementIrreversible) <==> enough
                && !new
            &&& outcome == Err::<(), CarbonError>(CarbonError::InvalidSerialRange) <==> new
                && !countable
        }),
{
}

/// The certificate of a retirement, which is stored under its id, says who retired
/// how much of which batch, for whom, why and when; project and vintage are those
/// of the batch.
pub proof fn law_certificate_says_what_happened(
    ledger: LedgerView,
    timestamp: u64,
    request: RetireRequest,
)
    requires
        ledger.retire_outcome(request) is Ok,
    ensures
        ({
            let next = ledger.after_retire(timestamp, request);
            let certificate = ledger.certificate(timestamp, request);
            let batch = ledger.batches[request.batch_id];
            &&& next.retirements.contains_key(request.retirement_id)
            &&& next.retirements[request.retirement_id] == certificate
            &&& certificate.retirement_id == request.retirement_id
            &&& certificate.credit_batch_id == request.batch_id
            &&& certificate.project_id == batch.project_id
            &&& certificate.amount == request.amount
            &&& certificate.retired_by == request.holder
            &&& certificate.beneficiary == request.beneficiary
            &&& certificate.retirement_reason == request.retirement_reason
            &&& certificate.vintage_year == batch.vintage_year
            &&& certificate.retired_at == timestamp
            &&& certificate.tx_hash == request.tx_hash
        }),
{
}

/// A certificate lists one serial number for each retired credit: those of the
/// batch in order, from the first one that earlier retirements have left over.
pub proof fn law_certificate_lists_the_next_serials(
    ledger: LedgerView,
    timestamp: u64,
    request: RetireRequest,
    i: int,
)
    requires
        ledger.retire_outcome(request) is Ok,
        0 <= i < request.amount,
    ensures
        ({
            let serials = ledger.certificate(timestamp, request).serial_numbers;
            let start = ledger.batches[request.batch_id].serial_start;
            let earlier = if ledger.retired.contains_key(request.batch_id) {
                ledger.retired[request.batch_id] as int
            } else {
                0
            };
            &&& serials.len() == request.amount
            &&& start + earlier + i <= u64::MAX ==> serials[i] == start + earlier + i
        }),
{
}

/// A retirement adds its amount to what is retired of the batch. The batch is then
/// fully retired exactly if that is all that was minted, and partially retired
/// otherwise. The rest of the batch stays, and so does all else.
pub proof fn law_retire_counts_the_credits(
    ledger: LedgerView,
    timestamp: u64,
    request: RetireRequest,
    other: Seq<u8>,
)
    requires
        ledger.retire_outcome(request) is Ok,
    ensures
        ({
            let next = ledger.after_retire(timestamp, request);
            let was = ledger.batches[request.batch_id];
            let batch = next.batches[request.batch_id];
            let earlier = if ledger.retired.contains_key(request.batch_id) {
                ledger.retired[request.batch_id] as int
            } else {
                0
            };
            &&& next.retired.contains_key(request.batch_id)
            &&& next.retired[request.batch_id] == earlier + request.amount
            &&& next.batches.contains_key(request.batch_id)
            &&& earlier + request.amount == was.amount ==> batch.status
                == CreditStatus::FullyRetired
            &&& earlier + request.amount != was.amount ==> batch.status
                == CreditStatus::PartiallyRetired
            &&& batch.owner == was.owner
            &&& batch.batch_id == was.batch_id
            &&& batch.project_id == was.project_id
            &&& batch.vintage_year == was.vintage_year
            &&& batch.amount == was.amount
            &&& batch.serial_start == was.serial_start
            &&& batch.serial_end == was.serial_end
            &&& batch.issued_at == was.issued_at
            &&& batch.metadata_cid == was.metadata_cid
            &&& other != request.batch_id ==> {
                &&& next.batches.contains_key(other) == ledger.batches.contains_key(other)
                &&& next.batches[other] == ledger.batches[other]
                &&& next.retired.contains_key(other) == ledger.retired.contains_key(other)
                &&& next.retired[other] == ledger.retired[other]
            }
            &&& other != request.retirement_id ==> {
                &&& next.retirements.contains_key(other) == ledger.retirements.contains_key(other)
                &&& next.retirements[other] == ledger.retirements[other]
            }
            &&& next.admin == ledger.admin
            &&& next.registry_contract == ledger.registry_contract
            &&& next.serial_registry == ledger.serial_registry
            &&& next.project_batches == ledger.project_batches
        }),
{
}

/// What a retirement asks of the network: first the signature of the holder, then,
/// once the batch is found, that it lives on, and if it succeeds, that what is now
/// recorded is stored, that the batch lives on again, and that the world is told.
pub proof fn law_retire_asks(ledger: LedgerView, timestamp: u64, request: RetireRequest)
    ensures
        ({
            let next = ledger.after_retire(timestamp, request);
            let calls = ledger.retire_calls(timestamp, request);
            let id = request.batch_id;
            let alive = HostCallView::ExtendTtl {
                key: DataKeyView::Batch(id),
                threshold: 518_400,
                extend_to: 518_400,
            };
            let found = request.amount > 0 && ledger.batches.contains_key(id);
            &&& calls.len() == (if ledger.retire_outcome(request) is Ok {
                7int
            } else if found {
                2
            } else {
                1
            })
            &&& calls[0] == HostCallView::RequireAuth(request.holder)
            &&& found ==> calls[1] == alive
            &&& ledger.retire_outcome(request) is Ok ==> {
                &&& calls[2] == HostCallView::StoreRetired(
                    RetiredKeyView::BatchRetired(id),
                    next.retired[id],
                )
                &&& calls[3] == HostCallView::Store(
                    DataKeyView::Batch(id),
                    EntryView::Batch(next.batches[id]),
                )
                &&& calls[4] == alive
                &&& calls[5] == HostCallView::Store(
                    DataKeyView::Retirement(request.retirement_id),
                    EntryView::Certificate(next.retirements[request.retirement_id]),
                )
                &&& calls[6] == HostCallView::Publish(
                    (EventView::Retired {
                        retirement_id: request.retirement_id,
                        batch_id: id,
                        project_id: ledger.batches[id].project_id,
                        amount: request.amount,
                        holder: request.holder,
                        beneficiary: request.beneficiary,
                    }),
                )
            }
        }),
{
}

/// A call that uses a batch overflows exactly if its owner asks for credits of a
/// batch that is neither fully retired nor suspended, and what was minted less
/// what is retired does not fit.
pub proof fn law_use_overflows_only_in_the_difference(
    ledger: LedgerView,
    caller: Seq<u8>,
    id: Seq<u8>,
    amount: i128,
)
    ensures
        ({
            let batch = ledger.batches[id];
            let retired = if ledger.retired.contains_key(batch.batch_id) {
                ledger.retired[batch.batch_id] as int
            } else {
                0
            };
            !ledger.use_defined(caller, id, amount) <==> amount > 0 && ledger.batches.contains_key(id)
                && batch.owner == caller && batch.status != CreditStatus::FullyRetired
                && batch.status != CreditStatus::Suspended && !(i128::MIN <= batch.amount - retired
                && batch.amount - retired <= i128::MAX)
        }),
{
}

/// A retirement overflows exactly if deciding on it does, or if it succeeds and its
/// serial numbers run up to the largest one or beyond, or what is then left of the
/// batch does not fit.
pub proof fn law_retire_overflows_only_at_the_end_of_the_serials(
    ledger: LedgerView,
    request: RetireRequest,
)
    ensures
        ({
            let id = request.batch_id;
            let batch = ledger.batches[id];
            let earlier = if ledger.retired.contains_key(id) {
                ledger.retired[id] as int
            } else {
                0
            };
            ledger.retire_defined(request.holder, id, request.amount, request.retirement_id) <==> {
                &&& ledger.use_defined(request.holder, id, request.amount)
                &&& ledger.retire_outcome(request) is Ok ==> {
                    &&& batch.serial_start + earlier + request.amount <= u64::MAX
                    &&& i128::MIN <= batch.amount - (earlier + request.amount)
                }
            }
        }),
{
}

/// What is shown of a project that has no list is nothing.
pub proof fn law_unlisted_projects_have_no_credits(ledger: LedgerView, project: Seq<u8>)
    ensures
        !ledger.project_batches.contains_key(project) || ledger.project_batches[project].len() == 0
            ==> ledger.found_ids(project).len() == 0 && ledger.credits_of(project).len() == 0,
{
    reveal(Seq::filter);
}

/// What is shown of a project grows with its list: an id that is listed last adds
/// the batch that is stored under it at the end, and nothing if there is none.
pub proof fn law_credits_follow_the_list(
    ledger: LedgerView,
    project: Seq<u8>,
    ids: Seq<Seq<u8>>,
    id: Seq<u8>,
)
    ensures
        ({
            let shorter = LedgerView {
                project_batches: ledger.project_batches.insert(project, ids),
                ..ledger
            };
            let longer = LedgerView {
                project_batches: ledger.project_batches.insert(project, ids.push(id)),
                ..ledger
            };
            &&& ledger.batches.contains_key(id) ==> {
                &&& longer.found_ids(project) == shorter.found_ids(project).push(id)
                &&& longer.credits_of(project) == shorter.credits_of(project).push(
                    ledger.batches[id],
                )
            }
            &&& !ledger.batches.contains_key(id) ==> {
                &&& longer.found_ids(project) == shorter.found_ids(project)
                &&& longer.credits_of(project) == shorter.credits_of(project)
            }
        }),
{
    reveal(Seq::filter);
    let shorter = LedgerView {
        project_batches: ledger.project_batches.insert(project, ids),
        ..ledger
    };
    let longer = LedgerView {
        project_batches: ledger.project_batches.insert(project, ids.push(id)),
        ..ledger
    };
    assert(ids.push(id).drop_last() =~= ids);
    assert(shorter.batches == longer.batches);
    let stored = |k: Seq<u8>| ledger.batches.contains_key(k);
    assert(shorter.found_ids(project) == ids.filter(stored));
    assert(longer.found_ids(project) == ids.push(id).filter(stored));
    if ledger.batches.contains_key(id) {
        assert(longer.credits_of(project) =~= shorter.credits_of(project).push(ledger.batches[id]));
    } else {
        assert(longer.credits_of(project) =~= shorter.credits_of(project));
    }
}

} // verus!
