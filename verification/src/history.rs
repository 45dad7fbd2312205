//! Calls one after the other: how they carry one ledger into the next.

use crate::env::LedgerView;
use crate::error::CarbonError;
use crate::host::{DataKeyView, EntryView, HostCallView, RetiredKeyView};
use crate::records::{CreditStatus, SerialRange};
use crate::rules::{MintRequest, RetireRequest, TransferRequest, FIRST_VINTAGE, LAST_VINTAGE};
use vstd::prelude::*;

verus! {

/// A call that can change the ledger.
#[verifier::ext_equal]
pub enum Request {
    Initialize { admin: Seq<u8>, registry_contract: Seq<u8> },
    Mint(MintRequest),
    Retire(RetireRequest),
    Transfer(TransferRequest),
}

impl LedgerView {
    /// Whether the call answers with success, or with which error.
    pub open spec fn outcome(self, request: Request) -> Result<(), CarbonError> {
        match request {
            Request::Initialize { .. } => self.initialize_outcome(),
            Request::Mint(r) => self.mint_outcome(r),
            Request::Retire(r) => self.retire_outcome(r),
            Request::Transfer(r) => self.transfer_outcome(r),
        }
    }

    /// Whether the call can be made without overflow.
    pub open spec fn defined(self, request: Request) -> bool {
        match request {
            Request::Initialize { .. } => true,
            Request::Mint(_) => true,
            Request::Retire(r) => self.retire_defined(
                r.holder,
                r.batch_id,
                r.amount,
                r.retirement_id,
            ),
            Request::Transfer(r) => self.use_defined(r.from, r.batch_id, r.amount),
        }
    }

    /// The ledger after the call.
    pub open spec fn after(self, timestamp: u64, request: Request) -> LedgerView {
        match request {
            Request::Initialize { admin, registry_contract } => self.after_initialize(
                admin,
                registry_contract,
            ),
            Request::Mint(r) => self.after_mint(timestamp, r),
            Request::Retire(r) => self.after_retire(timestamp, r),
            Request::Transfer(r) => self.after_transfer(r),
        }
    }

    /// What the call asks of the network.
    pub open spec fn calls(self, timestamp: u64, request: Request) -> Seq<HostCallView> {
        match request {
            Request::Initialize { admin, registry_contract } => self.initialize_calls(
                admin,
                registry_contract,
            ),
            Request::Mint(r) => self.mint_calls(timestamp, r),
            Request::Retire(r) => self.retire_calls(timestamp, r),
            Request::Transfer(r) => self.transfer_calls(r),
        }
    }

    /// The ledger after a number of calls, each with its time.
    pub open spec fn after_all(self, history: Seq<(u64, Request)>) -> LedgerView
        decreases history.len(),
    {
        if history.len() == 0 {
            self
        } else {
            self.after_all(history.drop_last()).after(history.last().0, history.last().1)
        }
    }
}

/// What happened in the course of a number of calls.
impl LedgerView {
    /// Whether the call at position `i` succeeds when its turn comes.
    pub open spec fn succeeds_at(self, history: Seq<(u64, Request)>, i: int) -> bool {
        &&& 0 <= i < history.len()
        &&& self.after_all(history.take(i)).outcome(history[i].1) is Ok
    }

    /// Whether the call at position `i` mints the batch `batch_id`.
    pub open spec fn mints_at(
        self,
        history: Seq<(u64, Request)>,
        i: int,
        batch_id: Seq<u8>,
    ) -> bool {
        &&& self.succeeds_at(history, i)
        &&& history[i].1 matches Request::Mint(r) && r.batch_id == batch_id
    }

    /// Whether the call at position `i` retires credits under `retirement_id`.
    pub open spec fn retires_at(
        self,
        history: Seq<(u64, Request)>,
        i: int,
        retirement_id: Seq<u8>,
    ) -> bool {
        &&& self.succeeds_at(history, i)
        &&& history[i].1 matches Request::Retire(r) && r.retirement_id == retirement_id
    }

    /// The ids of the batches that the calls mint for a project, in order.
    pub open spec fn ids_minted(self, history: Seq<(u64, Request)>, project_id: Seq<u8>) -> Seq<
        Seq<u8>,
    >
        decreases history.len(),
    {
        if history.len() == 0 {
            Seq::empty()
        } else {
            let earlier = self.ids_minted(history.drop_last(), project_id);
            match history.last().1 {
                Request::Mint(r) => if r.project_id == project_id && self.after_all(
                    history.drop_last(),
                ).mint_outcome(r) is Ok {
                    earlier.push(r.batch_id)
                } else {
                    earlier
                },
                _ => earlier,
            }
        }
    }

    /// The sum of the amounts that the calls retire of a batch.
    pub open spec fn amount_retired(self, history: Seq<(u64, Request)>, batch_id: Seq<u8>) -> int
        decreases history.len(),
    {
        if history.len() == 0 {
            0
        } else {
            let earlier = self.amount_retired(history.drop_last(), batch_id);
            match history.last().1 {
                Request::Retire(r) => if r.batch_id == batch_id && self.after_all(
                    history.drop_last(),
                ).retire_outcome(r) is Ok {
                    earlier + r.amount
                } else {
                    earlier
                },
                _ => earlier,
            }
        }
    }
}

/// How much of the ledger a call looks at.
impl LedgerView {
    /// Whether two ledgers hold the same entries as far as a call looks at them.
    pub open spec fn agrees_for(self, other: LedgerView, request: Request) -> bool {
        match request {
            Request::Initialize { .. } => self.admin == other.admin,
            Request::Mint(r) => {
                &&& self.admin == other.admin
                &&& self.serial_registry == other.serial_registry
                &&& self.batches.contains_key(r.batch_id) == other.batches.contains_key(r.batch_id)
                &&& self.ids_of(r.project_id) == other.ids_of(r.project_id)
            },
            Request::Retire(r) => {
                &&& self.agrees_on_batch(other, r.batch_id)
                &&& self.retirements.contains_key(r.retirement_id)
                    == other.retirements.contains_key(r.retirement_id)
            },
            Request::Transfer(r) => self.agrees_on_batch(other, r.batch_id),
        }
    }

    /// Whether two ledgers hold the same batch, with the same counter, under `id`.
    pub open spec fn agrees_on_batch(self, other: LedgerView, id: Seq<u8>) -> bool {
        &&& self.batches.contains_key(id) == other.batches.contains_key(id)
        &&& self.batches.contains_key(id) ==> self.batches[id] == other.batches[id]
            && self.batches[id].batch_id == id
        &&& self.retired_of(id) == other.retired_of(id)
    }
}

/// What the network makes of the requests of a call.
impl LedgerView {
    /// The ledger once the network has carried out one request. Signatures,
    /// lifetimes and events leave the entries as they are.
    pub open spec fn performing(self, call: HostCallView) -> LedgerView {
        match call {
            HostCallView::Store(DataKeyView::Admin, EntryView::Address(a)) => LedgerView {
                admin: Some(a),
                ..self
            },
            HostCallView::Store(DataKeyView::RegistryContract, EntryView::Address(a)) => LedgerView {
                registry_contract: Some(a),
                ..self
            },
            HostCallView::Store(DataKeyView::SerialRegistry, EntryView::SerialRanges(r)) =>
            LedgerView { serial_registry: Some(r), ..self },
            HostCallView::Store(DataKeyView::Batch(id), EntryView::Batch(b)) => LedgerView {
                batches: self.batches.insert(id, b),
                ..self
            },
            HostCallView::Store(DataKeyView::Retirement(id), EntryView::Certificate(c)) =>
            LedgerView { retirements: self.retirements.insert(id, c), ..self },
            HostCallView::Store(DataKeyView::ProjectBatches(id), EntryView::BatchIds(ids)) =>
            LedgerView { project_batches: self.project_batches.insert(id, ids), ..self },
            HostCallView::StoreRetired(RetiredKeyView::BatchRetired(id), amount) => LedgerView {
                retired: self.retired.insert(id, amount),
                ..self
            },
            _ => self,
        }
    }

    /// The ledger once the network has carried out a number of requests in order.
    pub open spec fn performing_all(self, calls: Seq<HostCallView>) -> LedgerView {
        self.performing_from(calls, 0)
    }

    /// The ledger once the network has carried out, in order, the requests from
    /// position `i` on.
    pub open spec fn performing_from(self, calls: Seq<HostCallView>, i: int) -> LedgerView
        decreases calls.len() - i,
    {
        if 0 <= i < calls.len() {
            self.performing(calls[i]).performing_from(calls, i + 1)
        } else {
            self
        }
    }
}

/// What holds of the ledger at all times.
impl LedgerView {
    /// Every batch is stored under its own id and has credits to count. What is
    /// retired of it never exceeds what was minted, and its status tells how far
    /// the retirement has come.
    pub open spec fn batches_sound(self) -> bool {
        forall|id: Seq<u8>| #[trigger]
            self.batches.contains_key(id) ==> {
                let batch = self.batches[id];
                let retired = self.retired_of(id);
                &&& batch.batch_id == id
                &&& 0 < batch.amount
                &&& 0 <= retired <= batch.amount
                &&& match batch.status {
                    CreditStatus::Active => retired == 0,
                    CreditStatus::PartiallyRetired => 0 < retired < batch.amount,
                    CreditStatus::FullyRetired => retired == batch.amount,
                    CreditStatus::Suspended => true,
                }
                &&& FIRST_VINTAGE <= batch.vintage_year
                    <= LAST_VINTAGE
            }
    }

    /// Only batches have retirement counters.
    pub open spec fn counters_sound(self) -> bool {
        forall|id: Seq<u8>| #[trigger]
            self.retired.contains_key(id) ==> self.batches.contains_key(id)
    }

    /// Whether the range is that of a batch.
    pub open spec fn some_batch_has(self, range: SerialRange) -> bool {
        exists|id: Seq<u8>| #[trigger]
            self.batches.contains_key(id) && self.batches[id].range() == range
    }

    /// The taken ranges are those of the batches, one for each, and no two of them
    /// share a serial number.
    pub open spec fn serials_sound(self) -> bool {
        &&& forall|id: Seq<u8>| #[trigger]
            self.batches.contains_key(id) ==> self.batches[id].serial_start
                <= self.batches[id].serial_end && self.ranges().contains(self.batches[id].range())
        &&& forall|i: int|
            0 <= i < self.ranges().len() ==> #[trigger] self.some_batch_has(self.ranges()[i])
        &&& forall|id1: Seq<u8>, id2: Seq<u8>| #[trigger]
            self.batches.contains_key(id1) && #[trigger] self.batches.contains_key(id2) && id1
                != id2 ==> !self.batches[id1].range().meets(
                self.batches[id2].serial_start,
                self.batches[id2].serial_end,
            )
        &&& forall|i: int, j: int|
            0 <= i < self.ranges().len() && 0 <= j < self.ranges().len() && i != j
                ==> !(#[trigger] self.ranges()[i]).meets(
                (#[trigger] self.ranges()[j]).start,
                self.ranges()[j].end,
            )
    }

    /// Every batch is listed once, for its own project.
    pub open spec fn lists_sound(self) -> bool {
        &&& forall|id: Seq<u8>| #[trigger]
            self.batches.contains_key(id) ==> self.ids_of(self.batches[id].project_id).contains(id)
        &&& forall|project: Seq<u8>, i: int|
            0 <= i < self.ids_of(project).len() ==> {
                let id = #[trigger] self.ids_of(project)[i];
                self.batches.contains_key(id) && self.batches[id].project_id == project
            }
        &&& forall|project: Seq<u8>| #[trigger] self.ids_of(project).no_duplicates()
    }

    /// Nothing is minted before there is an admin.
    pub open spec fn start_sound(self) -> bool {
        self.admin is None ==> self.ranges().len() == 0 && self.batches =~= Map::empty()
    }

    /// What holds of the ledger at all times.
    pub open spec fn sound(self) -> bool {
        &&& self.batches_sound()
        &&& self.counters_sound()
        &&& self.serials_sound()
        &&& self.lists_sound()
        &&& self.start_sound()
    }
}

} // verus!
