//! What the contract asks of the network that runs it: signatures, stored
//! entries, prolonged lifetimes and published events.

use crate::records::{
    CreditBatch, CreditBatchView, RetirementCertificate, RetirementCertificateView, SerialRange,
};
use crate::text::{Address, Text};
use vstd::prelude::*;

verus! {

/// For how many ledgers a batch is kept alive from the time it was last used.
///
/// With a ledger every five seconds this is about thirty days.
pub const TTL_LEDGERS: u32 = 518_400;

/// The keys of the stored entries.
#[derive(Debug, PartialEq, Eq)]
pub enum DataKey {
    /// The batch with this id.
    Batch(Text),
    /// The certificate with this retirement id.
    Retirement(Text),
    /// The ids of the batches of this project.
    ProjectBatches(Text),
    /// The serial ranges of all batches.
    SerialRegistry,
    /// The address that may mint.
    Admin,
    /// The contract that keeps the projects.
    RegistryContract,
}

/// The mathematical content of a [`DataKey`].
#[verifier::ext_equal]
pub enum DataKeyView {
    Batch(Seq<u8>),
    Retirement(Seq<u8>),
    ProjectBatches(Seq<u8>),
    SerialRegistry,
    Admin,
    RegistryContract,
}

impl View for DataKey {
    type V = DataKeyView;

    open spec fn view(&self) -> DataKeyView {
        match self {
            DataKey::Batch(id) => DataKeyView::Batch(id@),
            DataKey::Retirement(id) => DataKeyView::Retirement(id@),
            DataKey::ProjectBatches(id) => DataKeyView::ProjectBatches(id@),
            DataKey::SerialRegistry => DataKeyView::SerialRegistry,
            DataKey::Admin => DataKeyView::Admin,
            DataKey::RegistryContract => DataKeyView::RegistryContract,
        }
    }
}

impl Clone for DataKey {
    fn clone(&self) -> (copy: Self)
        ensures
            copy@ == self@,
    {
        match self {
            DataKey::Batch(id) => DataKey::Batch(id.clone()),
            DataKey::Retirement(id) => DataKey::Retirement(id.clone()),
            DataKey::ProjectBatches(id) => DataKey::ProjectBatches(id.clone()),
            DataKey::SerialRegistry => DataKey::SerialRegistry,
            DataKey::Admin => DataKey::Admin,
            DataKey::RegistryContract => DataKey::RegistryContract,
        }
    }
}

/// The keys of the retirement counters.
#[derive(Debug, PartialEq, Eq)]
pub enum RetiredKey {
    /// How many credits of the batch with this id are retired.
    BatchRetired(Text),
}

/// The mathematical content of a [`RetiredKey`].
#[verifier::ext_equal]
pub enum RetiredKeyView {
    BatchRetired(Seq<u8>),
}

impl View for RetiredKey {
    type V = RetiredKeyView;

    open spec fn view(&self) -> RetiredKeyView {
        match self {
            RetiredKey::BatchRetired(id) => RetiredKeyView::BatchRetired(id@),
        }
    }
}

impl Clone for RetiredKey {
    fn clone(&self) -> (copy: Self)
        ensures
            copy@ == self@,
    {
        match self {
            RetiredKey::BatchRetired(id) => RetiredKey::BatchRetired(id.clone()),
        }
    }
}

/// The value of a stored entry.
#[derive(Debug, PartialEq, Eq)]
pub enum Entry {
    Address(Address),
    SerialRanges(Vec<SerialRange>),
    Batch(CreditBatch),
    Certificate(RetirementCertificate),
    BatchIds(Vec<Text>),
}

/// The mathematical content of an [`Entry`].
#[verifier::ext_equal]
pub enum EntryView {
    Address(Seq<u8>),
    SerialRanges(Seq<SerialRange>),
    Batch(CreditBatchView),
    Certificate(RetirementCertificateView),
    BatchIds(Seq<Seq<u8>>),
}

impl View for Entry {
    type V = EntryView;

    open spec fn view(&self) -> EntryView {
        match self {
            Entry::Address(address) => EntryView::Address(address@),
            Entry::SerialRanges(ranges) => EntryView::SerialRanges(ranges@),
            Entry::Batch(batch) => EntryView::Batch(batch@),
            Entry::Certificate(certificate) => EntryView::Certificate(certificate@),
            Entry::BatchIds(ids) => EntryView::BatchIds(ids.deep_view()),
        }
    }
}

/// What the contract tells the world.
#[derive(Debug, PartialEq, Eq)]
pub enum Event {
    Minted {
        batch_id: Text,
        project_id: Text,
        amount: i128,
        vintage_year: u32,
        serial_start: u64,
        serial_end: u64,
    },
    Retired {
        retirement_id: Text,
        batch_id: Text,
        project_id: Text,
        amount: i128,
        holder: Address,
        beneficiary: Text,
    },
    Transfer { batch_id: Text, from: Address, to: Address, amount: i128 },
}

/// The mathematical content of an [`Event`].
#[verifier::ext_equal]
pub enum EventView {
    Minted {
        batch_id: Seq<u8>,
        project_id: Seq<u8>,
        amount: i128,
        vintage_year: u32,
        serial_start: u64,
        serial_end: u64,
    },
    Retired {
        retirement_id: Seq<u8>,
        batch_id: Seq<u8>,
        project_id: Seq<u8>,
        amount: i128,
        holder: Seq<u8>,
        beneficiary: Seq<u8>,
    },
    Transfer { batch_id: Seq<u8>, from: Seq<u8>, to: Seq<u8>, amount: i128 },
}

impl View for Event {
    type V = EventView;

    open spec fn view(&self) -> EventView {
        match self {
            Event::Minted {
                batch_id,
                project_id,
                amount,
                vintage_year,
                serial_start,
                serial_end,
            } => EventView::Minted {
                batch_id: batch_id@,
                project_id: project_id@,
                amount: *amount,
                vintage_year: *vintage_year,
                serial_start: *serial_start,
                serial_end: *serial_end,
            },
            Event::Retired { retirement_id, batch_id, project_id, amount, holder, beneficiary } =>
            EventView::Retired {
                retirement_id: retirement_id@,
                batch_id: batch_id@,
                project_id: project_id@,
                amount: *amount,
                holder: holder@,
                beneficiary: beneficiary@,
            },
            Event::Transfer { batch_id, from, to, amount } => EventView::Transfer {
                batch_id: batch_id@,
                from: from@,
                to: to@,
                amount: *amount,
            },
        }
    }
}

impl Event {
    /// The two topics under which the event is published: the system's and its own.
    pub fn topics(&self) -> (topics: (&'static str, &'static str))
        ensures
            topics.0@ == "c_ledger"@,
            topics.1@ == (match self@ {
                EventView::Minted { .. } => "minted"@,
                EventView::Retired { .. } => "retired"@,
                EventView::Transfer { .. } => "transfer"@,
            }),
    {
        match self {
            Event::Minted { .. } => ("c_ledger", "minted"),
            Event::Retired { .. } => ("c_ledger", "retired"),
            Event::Transfer { .. } => ("c_ledger", "transfer"),
        }
    }
}

/// One request to the network.
#[derive(Debug, PartialEq, Eq)]
pub enum HostCall {
    /// Abort the whole call unless this address has signed it.
    RequireAuth(Address),
    /// Store the entry under the key.
    Store(DataKey, Entry),
    /// Store the retirement counter under the key.
    StoreRetired(RetiredKey, i128),
    /// Where the entry under the key has `threshold` ledgers or fewer to live,
    /// let it live for `extend_to` ledgers.
    ExtendTtl { key: DataKey, threshold: u32, extend_to: u32 },
    /// Publish the event.
    Publish(Event),
}

/// The mathematical content of a [`HostCall`].
#[verifier::ext_equal]
pub enum HostCallView {
    RequireAuth(Seq<u8>),
    Store(DataKeyView, EntryView),
    StoreRetired(RetiredKeyView, i128),
    ExtendTtl { key: DataKeyView, threshold: u32, extend_to: u32 },
    Publish(EventView),
}

impl DeepView for HostCall {
    type V = HostCallView;

    open spec fn deep_view(&self) -> HostCallView {
        match self {
            HostCall::RequireAuth(address) => HostCallView::RequireAuth(address@),
            HostCall::Store(key, entry) => HostCallView::Store(key@, entry@),
            HostCall::StoreRetired(key, amount) => HostCallView::StoreRetired(key@, *amount),
            HostCall::ExtendTtl { key, threshold, extend_to } => HostCallView::ExtendTtl {
                key: key@,
                threshold: *threshold,
                extend_to: *extend_to,
            },
            HostCall::Publish(event) => HostCallView::Publish(event@),
        }
    }
}

} // verus!
