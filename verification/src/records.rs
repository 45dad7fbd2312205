//! What the ledger records: batches, serial ranges and certificates.

use crate::text::{Address, Text};
use vstd::prelude::*;

verus! {

/// How much of a batch is still in circulation.
#[derive(Copy, Clone, Debug, PartialEq, Eq, Structural)]
pub enum CreditStatus {
    Active,
    PartiallyRetired,
    FullyRetired,
    Suspended,
}

/// A batch of credits that were minted together.
#[derive(Debug, PartialEq, Eq)]
pub struct CreditBatch {
    pub batch_id: Text,
    pub project_id: Text,
    pub vintage_year: u32,
    pub amount: i128,
    pub serial_start: u64,
    pub serial_end: u64,
    pub issued_at: u64,
    pub status: CreditStatus,
    pub metadata_cid: Text,
    /// The current owner of the batch. Only the owner may transfer or retire it.
    pub owner: Address,
}

/// The mathematical content of a [`CreditBatch`].
#[verifier::ext_equal]
pub struct CreditBatchView {
    pub batch_id: Seq<u8>,
    pub project_id: Seq<u8>,
    pub vintage_year: u32,
    pub amount: i128,
    pub serial_start: u64,
    pub serial_end: u64,
    pub issued_at: u64,
    pub status: CreditStatus,
    pub metadata_cid: Seq<u8>,
    pub owner: Seq<u8>,
}

impl View for CreditBatch {
    type V = CreditBatchView;

    open spec fn view(&self) -> CreditBatchView {
        CreditBatchView {
            batch_id: self.batch_id@,
            project_id: self.project_id@,
            vintage_year: self.vintage_year,
            amount: self.amount,
            serial_start: self.serial_start,
            serial_end: self.serial_end,
            issued_at: self.issued_at,
            status: self.status,
            metadata_cid: self.metadata_cid@,
            owner: self.owner@,
        }
    }
}

impl DeepView for CreditBatch {
    type V = CreditBatchView;

    open spec fn deep_view(&self) -> CreditBatchView {
        self@
    }
}

impl Clone for CreditBatch {
    fn clone(&self) -> (copy: Self)
        ensures
            copy@ == self@,
    {
        CreditBatch {
            batch_id: self.batch_id.clone(),
            project_id: self.project_id.clone(),
            vintage_year: self.vintage_year,
            amount: self.amount,
            serial_start: self.serial_start,
            serial_end: self.serial_end,
            issued_at: self.issued_at,
            status: self.status,
            metadata_cid: self.metadata_cid.clone(),
            owner: self.owner.clone(),
        }
    }
}

/// The permanent record of one retirement.
#[derive(Debug, PartialEq, Eq)]
pub struct RetirementCertificate {
    pub retirement_id: Text,
    pub credit_batch_id: Text,
    pub project_id: Text,
    pub amount: i128,
    pub retired_by: Address,
    pub beneficiary: Text,
    pub retirement_reason: Text,
    pub vintage_year: u32,
    pub serial_numbers: Vec<u64>,
    pub retired_at: u64,
    pub tx_hash: Text,
}

/// The mathematical content of a [`RetirementCertificate`].
#[verifier::ext_equal]
pub struct RetirementCertificateView {
    pub retirement_id: Seq<u8>,
    pub credit_batch_id: Seq<u8>,
    pub project_id: Seq<u8>,
    pub amount: i128,
    pub retired_by: Seq<u8>,
    pub beneficiary: Seq<u8>,
    pub retirement_reason: Seq<u8>,
    pub vintage_year: u32,
    pub serial_numbers: Seq<u64>,
    pub retired_at: u64,
    pub tx_hash: Seq<u8>,
}

impl View for RetirementCertificate {
    type V = RetirementCertificateView;

    open spec fn view(&self) -> RetirementCertificateView {
        RetirementCertificateView {
            retirement_id: self.retirement_id@,
            credit_batch_id: self.credit_batch_id@,
            project_id: self.project_id@,
            amount: self.amount,
            retired_by: self.retired_by@,
            beneficiary: self.beneficiary@,
            retirement_reason: self.retirement_reason@,
            vintage_year: self.vintage_year,
            serial_numbers: self.serial_numbers@,
            retired_at: self.retired_at,
            tx_hash: self.tx_hash@,
        }
    }
}

impl DeepView for RetirementCertificate {
    type V = RetirementCertificateView;

    open spec fn deep_view(&self) -> RetirementCertificateView {
        self@
    }
}

impl Clone for RetirementCertificate {
    fn clone(&self) -> (copy: Self)
        ensures
            copy@ == self@,
    {
        let serial_numbers = self.serial_numbers.clone();
        assert(serial_numbers@ =~= self.serial_numbers@);
        RetirementCertificate {
            retirement_id: self.retirement_id.clone(),
            credit_batch_id: self.credit_batch_id.clone(),
            project_id: self.project_id.clone(),
            amount: self.amount,
            retired_by: self.retired_by.clone(),
            beneficiary: self.beneficiary.clone(),
            retirement_reason: self.retirement_reason.clone(),
            vintage_year: self.vintage_year,
            serial_numbers,
            retired_at: self.retired_at,
            tx_hash: self.tx_hash.clone(),
        }
    }
}

/// The serial numbers from `start` to `end`, both included.
#[derive(Copy, Clone, Debug, PartialEq, Eq, Structural)]
pub struct SerialRange {
    pub start: u64,
    pub end: u64,
}

impl SerialRange {
    /// Whether `serial` is one of the numbers of the range.
    pub open spec fn contains(self, serial: u64) -> bool {
        self.start <= serial <= self.end
    }

    /// Whether the range and the numbers from `start` to `end` meet, by their bounds.
    pub open spec fn meets(self, start: u64, end: u64) -> bool {
        start <= self.end && end >= self.start
    }
}

impl CreditBatchView {
    /// The serial numbers of the batch.
    pub open spec fn range(self) -> SerialRange {
        SerialRange { start: self.serial_start, end: self.serial_end }
    }
}

} // verus!
