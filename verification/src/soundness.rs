//! The ledger is sound at all times.

use crate::env::LedgerView;
use crate::history::Request;
use crate::records::CreditBatchView;
use crate::rules::{MintRequest, RetireRequest, TransferRequest};
use vstd::prelude::*;

verus! {

/// The ledger on which nothing is stored is sound.
pub proof fn law_empty_ledger_is_sound()
    ensures
        LedgerView::empty().sound(),
{
}

/// A sound ledger stays sound, whatever is called.
pub proof fn law_sound_ledgers_stay_sound(ledger: LedgerView, timestamp: u64, request: Request)
    requires
        ledger.sound(),
    ensures
        ledger.after(timestamp, request).sound(),
{
    if ledger.outcome(request) is Ok {
        match request {
            Request::Initialize { admin, registry_contract } => {
                let next = ledger.after_initialize(admin, registry_contract);
                assert(next.ranges() =~= ledger.ranges());
                assert(next.lists_sound()) by {
                    assert forall|project: Seq<u8>| #[trigger]
                        next.ids_of(project) == ledger.ids_of(project) by {}
                }
            },
            Request::Mint(r) => {
                lemma_mint_keeps_soundness(ledger, timestamp, r);
            },
            Request::Retire(r) => {
                lemma_retire_keeps_soundness(ledger, timestamp, r);
            },
            Request::Transfer(r) => {
                lemma_transfer_keeps_soundness(ledger, r);
            },
        }
    }
}

/// A sound ledger stays sound, however many calls are made.
pub proof fn law_histories_keep_soundness(ledger: LedgerView, history: Seq<(u64, Request)>)
    requires
        ledger.sound(),
    ensures
        ledger.after_all(history).sound(),
    decreases history.len(),
{
    if history.len() > 0 {
        law_histories_keep_soundness(ledger, history.drop_last());
        law_sound_ledgers_stay_sound(
            ledger.after_all(history.drop_last()),
            history.last().0,
            history.last().1,
        );
    }
}

/// Whatever was called since the ledger was empty, it is sound.
pub proof fn law_reachable_ledgers_are_sound(history: Seq<(u64, Request)>)
    ensures
        LedgerView::empty().after_all(history).sound(),
{
    law_empty_ledger_is_sound();
    law_histories_keep_soundness(LedgerView::empty(), history);
}

proof fn lemma_mint_keeps_soundness(ledger: LedgerView, timestamp: u64, request: MintRequest)
    requires
        ledger.sound(),
        ledger.mint_outcome(request) is Ok,
    ensures
        ledger.after_mint(timestamp, request).sound(),
{
    let next = ledger.after_mint(timestamp, request);
    let new = request.batch_id;
    let range = request.range();
    assert(!ledger.retired.contains_key(new));
    assert(next.batches_sound());
    assert(next.counters_sound());
    assert(next.serials_sound()) by {
        let last = ledger.ranges().len() as int;
        assert(next.ranges()[last] == range);
        assert forall|id: Seq<u8>| #[trigger]
            next.batches.contains_key(id) implies next.batches[id].serial_start
            <= next.batches[id].serial_end && next.ranges().contains(next.batches[id].range()) by {
            if id != new {
                assert(ledger.batches.contains_key(id));
                let j = choose|j: int|
                    0 <= j < ledger.ranges().len() && ledger.ranges()[j]
                        == ledger.batches[id].range();
                assert(next.ranges()[j] == next.batches[id].range());
            }
        }
        assert forall|i: int| 0 <= i < next.ranges().len() implies #[trigger] next.some_batch_has(
            next.ranges()[i],
        ) by {
            if i == last {
                assert(next.batches.contains_key(new));
            } else {
                assert(ledger.some_batch_has(ledger.ranges()[i]));
                let id = choose|id: Seq<u8>| #[trigger]
                    ledger.batches.contains_key(id) && ledger.batches[id].range()
                        == ledger.ranges()[i];
                assert(next.batches.contains_key(id));
                assert(next.batches[id].range() == next.ranges()[i]);
            }
        }
        assert forall|id: Seq<u8>| #[trigger]
            ledger.batches.contains_key(id) implies !ledger.batches[id].range().meets(
            request.serial_start,
            request.serial_end,
        ) by {
            let j = choose|j: int|
                0 <= j < ledger.ranges().len() && ledger.ranges()[j] == ledger.batches[id].range();
            assert(!ledger.ranges()[j].meets(request.serial_start, request.serial_end));
        }
    }
    assert(next.lists_sound()) by {
        let ids = ledger.ids_of(request.project_id);
        assert(next.ids_of(request.project_id) == ids.push(new));
        assert(ids.push(new)[ids.len() as int] == new);
        assert forall|project: Seq<u8>| project != request.project_id implies next.ids_of(project)
            == #[trigger] ledger.ids_of(project) by {}
        assert forall|id: Seq<u8>| #[trigger]
            next.batches.contains_key(id) implies next.ids_of(
            next.batches[id].project_id,
        ).contains(id) by {
            if id != new {
                assert(ledger.batches.contains_key(id));
                let list = ledger.ids_of(ledger.batches[id].project_id);
                let j = choose|j: int| 0 <= j < list.len() && list[j] == id;
                assert(next.ids_of(next.batches[id].project_id)[j] == id);
            }
        }
        assert forall|project: Seq<u8>, i: int| 0 <= i < next.ids_of(project).len() implies ({
            let id = #[trigger] next.ids_of(project)[i];
            next.batches.contains_key(id) && next.batches[id].project_id == project
        }) by {
            if i < ledger.ids_of(project).len() {
                assert(next.ids_of(project)[i] == ledger.ids_of(project)[i]);
            }
        }
        assert forall|project: Seq<u8>| #[trigger] next.ids_of(project).no_duplicates() by {
            assert(ledger.ids_of(project).no_duplicates());
            if project == request.project_id {
                assert forall|i: int| 0 <= i < ids.len() implies #[trigger] ids[i] != new by {
                    assert(ledger.batches.contains_key(ledger.ids_of(project)[i]));
                }
            }
        }
    }
}

/// A ledger in which one batch got another owner or status, and its counter
/// moved along, is sound like the one before.
proof fn lemma_update_keeps_soundness(
    ledger: LedgerView,
    next: LedgerView,
    id: Seq<u8>,
    batch: CreditBatchView,
)
    requires
        ledger.sound(),
        ledger.batches.contains_key(id),
        next.admin == ledger.admin,
        next.serial_registry == ledger.serial_registry,
        next.project_batches == ledger.project_batches,
        next.batches == ledger.batches.insert(id, batch),
        batch == (CreditBatchView {
            status: batch.status,
            owner: batch.owner,
            ..ledger.batches[id]
        }),
        forall|other: Seq<u8>|
            other != id ==> #[trigger] next.retired.contains_key(other)
                == ledger.retired.contains_key(other) && next.retired_of(other)
                == ledger.retired_of(other),
        next.batches_sound(),
    ensures
        next.sound(),
{
    assert(next.ranges() == ledger.ranges());
    assert(next.counters_sound());
    assert forall|other: Seq<u8>| #[trigger]
        next.batches.contains_key(other) implies ledger.batches.contains_key(other)
        && next.batches[other].range() == ledger.batches[other].range()
        && next.batches[other].project_id == ledger.batches[other].project_id by {}
    assert(next.serials_sound()) by {
        assert forall|i: int| 0 <= i < next.ranges().len() implies #[trigger] next.some_batch_has(
            next.ranges()[i],
        ) by {
            assert(ledger.some_batch_has(ledger.ranges()[i]));
            let other = choose|other: Seq<u8>| #[trigger]
                ledger.batches.contains_key(other) && ledger.batches[other].range()
                    == ledger.ranges()[i];
            assert(next.batches.contains_key(other));
        }
    }
    assert(next.lists_sound()) by {
        assert forall|project: Seq<u8>| next.ids_of(project) == #[trigger] ledger.ids_of(
            project,
        ) by {}
        assert forall|project: Seq<u8>, i: int| 0 <= i < next.ids_of(project).len() implies ({
            let other = #[trigger] next.ids_of(project)[i];
            next.batches.contains_key(other) && next.batches[other].project_id == project
        }) by {
            assert(ledger.batches.contains_key(ledger.ids_of(project)[i]));
        }
        assert forall|project: Seq<u8>| #[trigger] next.ids_of(project).no_duplicates() by {
            assert(ledger.ids_of(project).no_duplicates());
        }
    }
}

proof fn lemma_retire_keeps_soundness(ledger: LedgerView, timestamp: u64, request: RetireRequest)
    requires
        ledger.sound(),
        ledger.retire_outcome(request) is Ok,
    ensures
        ledger.after_retire(timestamp, request).sound(),
{
    let next = ledger.after_retire(timestamp, request);
    lemma_update_keeps_soundness(
        ledger,
        next,
        request.batch_id,
        ledger.retired_batch(request),
    );
}

proof fn lemma_transfer_keeps_soundness(ledger: LedgerView, request: TransferRequest)
    requires
        ledger.sound(),
        ledger.transfer_outcome(request) is Ok,
    ensures
        ledger.after_transfer(request).sound(),
{
    let next = ledger.after_transfer(request);
    lemma_update_keeps_soundness(
        ledger,
        next,
        request.batch_id,
        ledger.transferred_batch(request),
    );
}

} // verus!
