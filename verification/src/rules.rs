//! The rules of the contract: what each call answers, what it stores and what
//! it asks of the network.

use crate::env::{EnvView, LedgerView};
use crate::error::CarbonError;
use crate::host::{
    DataKeyView, EntryView, EventView, HostCallView, RetiredKeyView, TTL_LEDGERS,
};
use crate::records::{CreditBatchView, CreditStatus, RetirementCertificateView, SerialRange};
use vstd::prelude::*;

verus! {

/// The first vintage year that credits can have.
pub const FIRST_VINTAGE: u32 = 2000;

/// The last vintage year that credits can have.
pub const LAST_VINTAGE: u32 = 2100;

/// A call to mint a batch.
#[verifier::ext_equal]
pub struct MintRequest {
    pub admin: Seq<u8>,
    pub project_id: Seq<u8>,
    pub amount: i128,
    pub vintage_year: u32,
    pub batch_id: Seq<u8>,
    pub serial_start: u64,
    pub serial_end: u64,
    pub metadata_cid: Seq<u8>,
    pub initial_owner: Seq<u8>,
}

/// A call to retire credits of a batch.
#[verifier::ext_equal]
pub struct RetireRequest {
    pub holder: Seq<u8>,
    pub batch_id: Seq<u8>,
    pub amount: i128,
    pub retirement_reason: Seq<u8>,
    pub beneficiary: Seq<u8>,
    pub retirement_id: Seq<u8>,
    pub tx_hash: Seq<u8>,
}

/// A call to hand a batch over.
#[verifier::ext_equal]
pub struct TransferRequest {
    pub from: Seq<u8>,
    pub to: Seq<u8>,
    pub batch_id: Seq<u8>,
    pub amount: i128,
}

impl HostCallView {
    /// The request that keeps a batch alive.
    pub open spec fn keep_alive(batch_id: Seq<u8>) -> HostCallView {
        HostCallView::ExtendTtl {
            key: DataKeyView::Batch(batch_id),
            threshold: TTL_LEDGERS,
            extend_to: TTL_LEDGERS,
        }
    }
}

/// What is read off the ledger.
impl LedgerView {
    /// The serial ranges that are taken.
    pub open spec fn ranges(self) -> Seq<SerialRange> {
        match self.serial_registry {
            Some(ranges) => ranges,
            None => Seq::empty(),
        }
    }

    /// Whether the numbers from `start` to `end` meet none of the ranges that are taken.
    pub open spec fn serials_free(self, start: u64, end: u64) -> bool {
        forall|i: int| 0 <= i < self.ranges().len() ==> !(#[trigger] self.ranges()[i]).meets(start, end)
    }

    /// How many credits of a batch are retired.
    pub open spec fn retired_of(self, batch_id: Seq<u8>) -> i128 {
        if self.retired.contains_key(batch_id) {
            self.retired[batch_id]
        } else {
            0
        }
    }

    /// How many credits of a batch are in circulation.
    pub open spec fn active_of(self, batch: CreditBatchView) -> int {
        if batch.status == CreditStatus::FullyRetired {
            0
        } else {
            batch.amount - self.retired_of(batch.batch_id)
        }
    }

    /// Whether the number of credits in circulation can be computed without overflow.
    pub open spec fn countable(self, batch: CreditBatchView) -> bool {
        i128::MIN <= self.active_of(batch) <= i128::MAX
    }

    /// The ids that are listed for a project.
    pub open spec fn ids_of(self, project_id: Seq<u8>) -> Seq<Seq<u8>> {
        if self.project_batches.contains_key(project_id) {
            self.project_batches[project_id]
        } else {
            Seq::empty()
        }
    }

    /// The ids that are listed for a project and under which a batch is stored.
    pub open spec fn found_ids(self, project_id: Seq<u8>) -> Seq<Seq<u8>> {
        self.ids_of(project_id).filter(|id: Seq<u8>| self.batches.contains_key(id))
    }

    /// The batches of a project, in the order in which they are listed.
    pub open spec fn credits_of(self, project_id: Seq<u8>) -> Seq<CreditBatchView> {
        self.found_ids(project_id).map_values(|id: Seq<u8>| self.batches[id])
    }
}

/// Becoming the admin.
impl LedgerView {
    /// What `initialize` answers.
    pub open spec fn initialize_outcome(self) -> Result<(), CarbonError> {
        if self.admin is Some {
            Err(CarbonError::AlreadyInitialized)
        } else {
            Ok(())
        }
    }

    /// The ledger after `initialize`.
    pub open spec fn after_initialize(
        self,
        admin: Seq<u8>,
        registry_contract: Seq<u8>,
    ) -> LedgerView {
        if self.initialize_outcome() is Ok {
            LedgerView {
                admin: Some(admin),
                registry_contract: Some(registry_contract),
                serial_registry: Some(Seq::empty()),
                ..self
            }
        } else {
            self
        }
    }

    /// What `initialize` asks of the network.
    pub open spec fn initialize_calls(
        self,
        admin: Seq<u8>,
        registry_contract: Seq<u8>,
    ) -> Seq<HostCallView> {
        if self.initialize_outcome() is Ok {
            seq![
                HostCallView::RequireAuth(admin),
                HostCallView::Store(DataKeyView::Admin, EntryView::Address(admin)),
                HostCallView::Store(
                    DataKeyView::RegistryContract,
                    EntryView::Address(registry_contract),
                ),
                HostCallView::Store(
                    DataKeyView::SerialRegistry,
                    EntryView::SerialRanges(Seq::empty()),
                ),
            ]
        } else {
            Seq::empty()
        }
    }
}

/// Minting.
impl LedgerView {
    /// What `mint_credits` answers.
    pub open spec fn mint_outcome(self, request: MintRequest) -> Result<(), CarbonError> {
        if self.admin != Some(request.admin) {
            Err(CarbonError::UnauthorizedVerifier)
        } else if request.amount <= 0 {
            Err(CarbonError::ZeroAmountNotAllowed)
        } else if request.serial_end < request.serial_start {
            Err(CarbonError::InvalidSerialRange)
        } else if !(FIRST_VINTAGE <= request.vintage_year <= LAST_VINTAGE) {
            Err(CarbonError::InvalidVintageYear)
        } else if self.batches.contains_key(request.batch_id) || !self.serials_free(
            request.serial_start,
            request.serial_end,
        ) {
            Err(CarbonError::SerialNumberConflict)
        } else {
            Ok(())
        }
    }

    /// The ledger after `mint_credits` at `timestamp`.
    pub open spec fn after_mint(self, timestamp: u64, request: MintRequest) -> LedgerView {
        if self.mint_outcome(request) is Ok {
            LedgerView {
                serial_registry: Some(self.ranges().push(request.range())),
                batches: self.batches.insert(request.batch_id, request.batch(timestamp)),
                project_batches: self.project_batches.insert(
                    request.project_id,
                    self.ids_of(request.project_id).push(request.batch_id),
                ),
                ..self
            }
        } else {
            self
        }
    }

    /// What `mint_credits` asks of the network.
    pub open spec fn mint_calls(self, timestamp: u64, request: MintRequest) -> Seq<HostCallView> {
        if self.mint_outcome(request) is Ok {
            seq![
                HostCallView::RequireAuth(request.admin),
                HostCallView::Store(
                    DataKeyView::SerialRegistry,
                    EntryView::SerialRanges(self.ranges().push(request.range())),
                ),
                HostCallView::Store(
                    DataKeyView::Batch(request.batch_id),
                    EntryView::Batch(request.batch(timestamp)),
                ),
                HostCallView::keep_alive(request.batch_id),
                HostCallView::Store(
                    DataKeyView::ProjectBatches(request.project_id),
                    EntryView::BatchIds(self.ids_of(request.project_id).push(request.batch_id)),
                ),
                HostCallView::Publish(
                    EventView::Minted {
                        batch_id: request.batch_id,
                        project_id: request.project_id,
                        amount: request.amount,
                        vintage_year: request.vintage_year,
                        serial_start: request.serial_start,
                        serial_end: request.serial_end,
                    },
                ),
            ]
        } else {
            seq![HostCallView::RequireAuth(request.admin)]
        }
    }
}

impl MintRequest {
    /// The serial range that the request claims.
    pub open spec fn range(self) -> SerialRange {
        SerialRange { start: self.serial_start, end: self.serial_end }
    }

    /// The batch that the request makes at `timestamp`.
    pub open spec fn batch(self, timestamp: u64) -> CreditBatchView {
        CreditBatchView {
            batch_id: self.batch_id,
            project_id: self.project_id,
            vintage_year: self.vintage_year,
            amount: self.amount,
            serial_start: self.serial_start,
            serial_end: self.serial_end,
            issued_at: timestamp,
            status: CreditStatus::Active,
            metadata_cid: self.metadata_cid,
            owner: self.initial_owner,
        }
    }
}

/// Using a batch: what retiring and handing over have in common.
impl LedgerView {
    /// What a call answers that uses `amount` credits of a batch in the name of `caller`.
    pub open spec fn use_outcome(self, caller: Seq<u8>, batch_id: Seq<u8>, amount: i128) -> Result<
        (),
        CarbonError,
    > {
        if amount <= 0 {
            Err(CarbonError::ZeroAmountNotAllowed)
        } else if !self.batches.contains_key(batch_id) {
            Err(CarbonError::ProjectNotFound)
        } else if self.batches[batch_id].owner != caller {
            Err(CarbonError::UnauthorizedVerifier)
        } else if self.batches[batch_id].status == CreditStatus::FullyRetired {
            Err(CarbonError::AlreadyRetired)
        } else if self.batches[batch_id].status == CreditStatus::Suspended {
            Err(CarbonError::ProjectSuspended)
        } else if amount > self.active_of(self.batches[batch_id]) {
            Err(CarbonError::InsufficientCredits)
        } else {
            Ok(())
        }
    }

    /// What such a call asks of the network before it decides: the signature of
    /// the caller and, once the batch is looked up, that it stays alive.
    pub open spec fn use_calls(self, caller: Seq<u8>, batch_id: Seq<u8>, amount: i128) -> Seq<
        HostCallView,
    > {
        if amount > 0 && self.batches.contains_key(batch_id) {
            seq![HostCallView::RequireAuth(caller), HostCallView::keep_alive(batch_id)]
        } else {
            seq![HostCallView::RequireAuth(caller)]
        }
    }

    /// Whether such a call can decide without overflow.
    pub open spec fn use_defined(self, caller: Seq<u8>, batch_id: Seq<u8>, amount: i128) -> bool {
        amount > 0 && self.batches.contains_key(batch_id) && self.batches[batch_id].owner == caller
            && self.batches[batch_id].status != CreditStatus::Suspended ==> self.countable(
            self.batches[batch_id],
        )
    }
}

/// Retiring.
impl LedgerView {
    /// What `retire_credits` answers.
    pub open spec fn retire_outcome(self, request: RetireRequest) -> Result<(), CarbonError> {
        self.retire_decision(
            request.holder,
            request.batch_id,
            request.amount,
            request.retirement_id,
        )
    }

    /// What `retire_credits` answers, by the arguments that decide it. After what
    /// every use of a batch is tested for, a retirement id that has a certificate
    /// is refused, and so are credits that serial numbers cannot count.
    pub open spec fn retire_decision(
        self,
        holder: Seq<u8>,
        batch_id: Seq<u8>,
        amount: i128,
        retirement_id: Seq<u8>,
    ) -> Result<(), CarbonError> {
        if self.use_outcome(holder, batch_id, amount) is Err {
            self.use_outcome(holder, batch_id, amount)
        } else if self.retirements.contains_key(retirement_id) {
            Err(CarbonError::RetirementIrreversible)
        } else if !(0 <= self.retired_of(batch_id) <= u64::MAX) || amount > u64::MAX {
            Err(CarbonError::InvalidSerialRange)
        } else {
            Ok(())
        }
    }

    /// The counter of the batch after a retirement.
    pub open spec fn new_retired(self, batch_id: Seq<u8>, amount: i128) -> int {
        self.retired_of(batch_id) + amount
    }

    /// The first serial number that a retirement takes: those of earlier
    /// retirements are passed over.
    pub open spec fn first_serial(self, batch_id: Seq<u8>) -> int {
        self.batches[batch_id].serial_start + self.retired_of(batch_id)
    }

    /// The serial numbers that a retirement takes, in rising order: one for each credit.
    pub open spec fn retired_serials(self, batch_id: Seq<u8>, amount: i128) -> Seq<u64> {
        Seq::new(amount as nat, |i: int| (self.first_serial(batch_id) + i) as u64)
    }

    /// Whether a retirement can be carried out without overflow, or is refused
    /// before anything could overflow.
    pub open spec fn retire_defined(
        self,
        holder: Seq<u8>,
        batch_id: Seq<u8>,
        amount: i128,
        retirement_id: Seq<u8>,
    ) -> bool {
        &&& self.use_defined(holder, batch_id, amount)
        &&& self.retire_decision(holder, batch_id, amount, retirement_id) is Ok ==> {
            &&& i128::MIN <= self.batches[batch_id].amount - self.new_retired(batch_id, amount)
            &&& self.first_serial(batch_id) + amount <= u64::MAX
        }
    }

    /// The batch after a retirement.
    pub open spec fn retired_batch(self, request: RetireRequest) -> CreditBatchView {
        let batch = self.batches[request.batch_id];
        CreditBatchView {
            status: if batch.amount == self.new_retired(request.batch_id, request.amount) {
                CreditStatus::FullyRetired
            } else {
                CreditStatus::PartiallyRetired
            },
            ..batch
        }
    }

    /// The certificate of a retirement at `timestamp`.
    pub open spec fn certificate(
        self,
        timestamp: u64,
        request: RetireRequest,
    ) -> RetirementCertificateView {
        let batch = self.batches[request.batch_id];
        RetirementCertificateView {
            retirement_id: request.retirement_id,
            credit_batch_id: request.batch_id,
            project_id: batch.project_id,
            amount: request.amount,
            retired_by: request.holder,
            beneficiary: request.beneficiary,
            retirement_reason: request.retirement_reason,
            vintage_year: batch.vintage_year,
            serial_numbers: self.retired_serials(request.batch_id, request.amount),
            retired_at: timestamp,
            tx_hash: request.tx_hash,
        }
    }

    /// The ledger after `retire_credits` at `timestamp`.
    pub open spec fn after_retire(self, timestamp: u64, request: RetireRequest) -> LedgerView {
        if self.retire_outcome(request) is Ok {
            LedgerView {
                retired: self.retired.insert(
                    request.batch_id,
                    self.new_retired(request.batch_id, request.amount) as i128,
                ),
                batches: self.batches.insert(request.batch_id, self.retired_batch(request)),
                retirements: self.retirements.insert(
                    request.retirement_id,
                    self.certificate(timestamp, request),
                ),
                ..self
            }
        } else {
            self
        }
    }

    /// What `retire_credits` asks of the network.
    pub open spec fn retire_calls(self, timestamp: u64, request: RetireRequest) -> Seq<
        HostCallView,
    > {
        let before = self.use_calls(request.holder, request.batch_id, request.amount);
        if self.retire_outcome(request) is Ok {
            before + seq![
                HostCallView::StoreRetired(
                    RetiredKeyView::BatchRetired(request.batch_id),
                    self.new_retired(request.batch_id, request.amount) as i128,
                ),
                HostCallView::Store(
                    DataKeyView::Batch(request.batch_id),
                    EntryView::Batch(self.retired_batch(request)),
                ),
                HostCallView::keep_alive(request.batch_id),
                HostCallView::Store(
                    DataKeyView::Retirement(request.retirement_id),
                    EntryView::Certificate(self.certificate(timestamp, request)),
                ),
                HostCallView::Publish(
                    EventView::Retired {
                        retirement_id: request.retirement_id,
                        batch_id: request.batch_id,
                        project_id: self.batches[request.batch_id].project_id,
                        amount: request.amount,
                        holder: request.holder,
                        beneficiary: request.beneficiary,
                    },
                ),
            ]
        } else {
            before
        }
    }
}

/// Handing over.
impl LedgerView {
    /// What `transfer_credits` answers.
    pub open spec fn transfer_outcome(self, request: TransferRequest) -> Result<(), CarbonError> {
        self.use_outcome(request.from, request.batch_id, request.amount)
    }

    /// The batch after it was handed over.
    pub open spec fn transferred_batch(self, request: TransferRequest) -> CreditBatchView {
        CreditBatchView { owner: request.to, ..self.batches[request.batch_id] }
    }

    /// The ledger after `transfer_credits`.
    pub open spec fn after_transfer(self, request: TransferRequest) -> LedgerView {
        if self.transfer_outcome(request) is Ok {
            LedgerView {
                batches: self.batches.insert(request.batch_id, self.transferred_batch(request)),
                ..self
            }
        } else {
            self
        }
    }

    /// What `transfer_credits` asks of the network.
    pub open spec fn transfer_calls(self, request: TransferRequest) -> Seq<HostCallView> {
        let before = self.use_calls(request.from, request.batch_id, request.amount);
        if self.transfer_outcome(request) is Ok {
            before + seq![
                HostCallView::Store(
                    DataKeyView::Batch(request.batch_id),
                    EntryView::Batch(self.transferred_batch(request)),
                ),
                HostCallView::keep_alive(request.batch_id),
                HostCallView::Publish(
                    EventView::Transfer {
                        batch_id: request.batch_id,
                        from: request.from,
                        to: request.to,
                        amount: request.amount,
                    },
                ),
            ]
        } else {
            before
        }
    }
}

impl EnvView {
    /// The surroundings once the ledger has become `ledger` and `calls` were made.
    pub open spec fn moved_to(self, ledger: LedgerView, calls: Seq<HostCallView>) -> EnvView {
        EnvView { ledger, calls: self.calls + calls, ..self }
    }
}

} // verus!
