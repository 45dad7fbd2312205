//! What the ledger tells about the calls that led to it.

use crate::env::LedgerView;
use crate::history::Request;
use crate::records::{CreditBatchView, CreditStatus};
use vstd::prelude::*;

verus! {

/// An earlier call is judged the same, whether or not calls follow it.
proof fn lemma_earlier_calls_stand(history: Seq<(u64, Request)>)
    requires
        history.len() > 0,
    ensures
        forall|i: int|
            0 <= i < history.len() - 1 ==> #[trigger] history.drop_last().take(i) == history.take(
                i,
            ) && history.drop_last()[i] == history[i],
        history.take(history.len() - 1) == history.drop_last(),
{
    assert forall|i: int| 0 <= i < history.len() - 1 implies #[trigger] history.drop_last().take(i)
        == history.take(i) && history.drop_last()[i] == history[i] by {
        assert(history.drop_last().take(i) =~= history.take(i));
    }
    assert(history.take(history.len() - 1) =~= history.drop_last());
}

/// A batch is stored exactly if a call minted it. It is what that call asked
/// for, but for its owner and its status.
pub proof fn law_batches_come_from_mints(history: Seq<(u64, Request)>, id: Seq<u8>)
    ensures
        LedgerView::empty().after_all(history).batches.contains_key(id) <==> exists|i: int|
            LedgerView::empty().mints_at(history, i, id),
        forall|i: int| #[trigger]
            LedgerView::empty().mints_at(history, i, id) ==> {
                let batch = LedgerView::empty().after_all(history).batches[id];
                batch == (CreditBatchView {
                    owner: batch.owner,
                    status: batch.status,
                    ..history[i].1->Mint_0.batch(history[i].0)
                })
            },
    decreases history.len(),
{
    let start = LedgerView::empty();
    if history.len() > 0 {
        let before = history.drop_last();
        let last = history.len() - 1;
        let ledger = start.after_all(before);
        lemma_earlier_calls_stand(history);
        law_batches_come_from_mints(before, id);
        assert forall|i: int| 0 <= i < last implies #[trigger] start.mints_at(history, i, id)
            == start.mints_at(before, i, id) by {
            assert(before.take(i) == history.take(i));
        }
        if ledger.batches.contains_key(id) {
            let i = choose|i: int| start.mints_at(before, i, id);
            assert(start.mints_at(history, i, id));
        } else if start.after_all(history).batches.contains_key(id) {
            assert(start.mints_at(history, last, id));
        }
        assert forall|i: int| #[trigger] start.mints_at(history, i, id) implies ({
            let batch = start.after_all(history).batches[id];
            &&& start.after_all(history).batches.contains_key(id)
            &&& batch == (CreditBatchView {
                owner: batch.owner,
                status: batch.status,
                ..history[i].1->Mint_0.batch(history[i].0)
            })
        }) by {
            if i < last {
                assert(start.mints_at(before, i, id));
            }
        }
    }
}

/// A certificate is stored exactly if a call retired credits under its id. It is
/// the certificate that this call issued.
pub proof fn law_certificates_come_from_retirements(history: Seq<(u64, Request)>, id: Seq<u8>)
    ensures
        LedgerView::empty().after_all(history).retirements.contains_key(id) <==> exists|i: int|
            LedgerView::empty().retires_at(history, i, id),
        forall|i: int| #[trigger]
            LedgerView::empty().retires_at(history, i, id) ==> LedgerView::empty().after_all(
                history,
            ).retirements[id] == LedgerView::empty().after_all(history.take(i)).certificate(
                history[i].0,
                history[i].1->Retire_0,
            ),
    decreases history.len(),
{
    let start = LedgerView::empty();
    if history.len() > 0 {
        let before = history.drop_last();
        let last = history.len() - 1;
        let ledger = start.after_all(before);
        lemma_earlier_calls_stand(history);
        law_certificates_come_from_retirements(before, id);
        assert forall|i: int| 0 <= i < last implies #[trigger] start.retires_at(history, i, id)
            == start.retires_at(before, i, id) by {
            assert(before.take(i) == history.take(i));
        }
        if ledger.retirements.contains_key(id) {
            let i = choose|i: int| start.retires_at(before, i, id);
            assert(start.retires_at(history, i, id));
        } else if start.after_all(history).retirements.contains_key(id) {
            assert(start.retires_at(history, last, id));
        }
        assert forall|i: int| #[trigger] start.retires_at(history, i, id) implies ({
            &&& start.after_all(history).retirements.contains_key(id)
            &&& start.after_all(history).retirements[id] == start.after_all(
                history.take(i),
            ).certificate(history[i].0, history[i].1->Retire_0)
        }) by {
            if i < last {
                assert(start.retires_at(before, i, id));
                assert(before.take(i) == history.take(i));
            }
        }
    }
}

/// What is listed for a project is what was minted for it, in order.
pub proof fn law_lists_tell_the_mints(history: Seq<(u64, Request)>, project: Seq<u8>)
    ensures
        LedgerView::empty().after_all(history).ids_of(project) == LedgerView::empty().ids_minted(
            history,
            project,
        ),
    decreases history.len(),
{
    if history.len() > 0 {
        law_lists_tell_the_mints(history.drop_last(), project);
    }
}

/// The counter of a batch is the sum of what the calls retired of it.
pub proof fn law_counters_tell_the_retirements(history: Seq<(u64, Request)>, id: Seq<u8>)
    ensures
        LedgerView::empty().after_all(history).retired_of(id)
            == LedgerView::empty().amount_retired(history, id),
    decreases history.len(),
{
    if history.len() > 0 {
        law_counters_tell_the_retirements(history.drop_last(), id);
        crate::soundness::law_reachable_ledgers_are_sound(history.drop_last());
    }
}

/// No call suspends a batch.
pub proof fn law_no_batch_gets_suspended(history: Seq<(u64, Request)>, id: Seq<u8>)
    requires
        LedgerView::empty().after_all(history).batches.contains_key(id),
    ensures
        LedgerView::empty().after_all(history).batches[id].status != CreditStatus::Suspended,
    decreases history.len(),
{
    if history.len() > 0 {
        let before = history.drop_last();
        if LedgerView::empty().after_all(before).batches.contains_key(id) {
            law_no_batch_gets_suspended(before, id);
        }
    }
}

/// Whatever was called since the ledger was empty: what is in circulation of a
/// batch, together with all that was ever retired of it, is what was minted, and
/// its status tells how much of it is still in circulation.
pub proof fn law_status_tells_the_circulation(history: Seq<(u64, Request)>, id: Seq<u8>)
    requires
        LedgerView::empty().after_all(history).batches.contains_key(id),
    ensures
        ({
            let ledger = LedgerView::empty().after_all(history);
            let batch = ledger.batches[id];
            let active = ledger.active_of(batch);
            &&& 0 <= active <= batch.amount
            &&& active + LedgerView::empty().amount_retired(history, id) == batch.amount
            &&& batch.status == CreditStatus::Active <==> active == batch.amount
            &&& batch.status == CreditStatus::PartiallyRetired <==> 0 < active < batch.amount
            &&& batch.status == CreditStatus::FullyRetired <==> active == 0
        }),
{
    crate::soundness::law_reachable_ledgers_are_sound(history);
    law_counters_tell_the_retirements(history, id);
    law_no_batch_gets_suspended(history, id);
}

} // verus!
