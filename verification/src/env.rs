//! The surroundings of a call: the stored entries that it can see, the time,
//! and what it has asked of the network so far.

use crate::host::{
    DataKey, DataKeyView, Entry, EntryView, Event, HostCall, HostCallView, RetiredKey,
    RetiredKeyView,
};
use crate::records::{
    CreditBatch, CreditBatchView, RetirementCertificate, RetirementCertificateView, SerialRange,
};
use crate::table::Table;
use crate::text::{Address, Text};
use vstd::prelude::*;

verus! {

/// The stored entries, by key.
#[verifier::ext_equal]
pub struct LedgerView {
    pub admin: Option<Seq<u8>>,
    pub registry_contract: Option<Seq<u8>>,
    pub serial_registry: Option<Seq<SerialRange>>,
    pub batches: Map<Seq<u8>, CreditBatchView>,
    pub retirements: Map<Seq<u8>, RetirementCertificateView>,
    pub project_batches: Map<Seq<u8>, Seq<Seq<u8>>>,
    pub retired: Map<Seq<u8>, i128>,
}

impl LedgerView {
    /// The ledger on which nothing is stored.
    pub open spec fn empty() -> LedgerView {
        LedgerView {
            admin: None,
            registry_contract: None,
            serial_registry: None,
            batches: Map::empty(),
            retirements: Map::empty(),
            project_batches: Map::empty(),
            retired: Map::empty(),
        }
    }
}

/// The mathematical content of an [`Env`].
#[verifier::ext_equal]
pub struct EnvView {
    pub ledger: LedgerView,
    pub timestamp: u64,
    pub calls: Seq<HostCallView>,
}

/// The surroundings of a call.
///
/// Entries that the network stores are loaded into it before the call. What the
/// call stores is seen by later reads, and every request to the network is
/// noted in the order in which it is made.
#[derive(Debug)]
pub struct Env {
    admin: Option<Address>,
    registry_contract: Option<Address>,
    serial_registry: Option<Vec<SerialRange>>,
    batches: Table<CreditBatch>,
    retirements: Table<RetirementCertificate>,
    project_batches: Table<Vec<Text>>,
    retired: Table<i128>,
    timestamp: u64,
    calls: Vec<HostCall>,
}

/// The content of an address that may be absent.
spec fn address_view(address: Option<Address>) -> Option<Seq<u8>> {
    match address {
        Some(a) => Some(a@),
        None => None,
    }
}

/// The content of a list of ranges that may be absent.
spec fn ranges_view(ranges: Option<Vec<SerialRange>>) -> Option<Seq<SerialRange>> {
    match ranges {
        Some(r) => Some(r@),
        None => None,
    }
}

impl View for Env {
    type V = EnvView;

    closed spec fn view(&self) -> EnvView {
        EnvView {
            ledger: LedgerView {
                admin: address_view(self.admin),
                registry_contract: address_view(self.registry_contract),
                serial_registry: ranges_view(self.serial_registry),
                batches: self.batches@,
                retirements: self.retirements@,
                project_batches: self.project_batches@,
                retired: self.retired@,
            },
            timestamp: self.timestamp,
            calls: self.calls.deep_view(),
        }
    }
}

/// A copy of a list of ids.
fn copy_ids(ids: &Vec<Text>) -> (copy: Vec<Text>)
    ensures
        copy.deep_view() == ids.deep_view(),
{
    let copy = ids.clone();
    assert(copy.deep_view() =~= ids.deep_view());
    copy
}

/// A copy of a list of ranges.
fn copy_ranges(ranges: &Vec<SerialRange>) -> (copy: Vec<SerialRange>)
    ensures
        copy@ == ranges@,
{
    let copy = ranges.clone();
    assert(copy@ =~= ranges@);
    copy
}

/// Setting up the surroundings, and reading what a call has left there.
impl Env {
    /// The surroundings of a call at `timestamp` that sees no stored entry.
    pub fn new(timestamp: u64) -> (env: Env)
        ensures
            env@ == (EnvView { ledger: LedgerView::empty(), timestamp, calls: Seq::empty() }),
    {
        let env = Env {
            admin: None,
            registry_contract: None,
            serial_registry: None,
            batches: Table::new(),
            retirements: Table::new(),
            project_batches: Table::new(),
            retired: Table::new(),
            timestamp,
            calls: Vec::new(),
        };
        assert(env@.calls =~= Seq::empty());
        env
    }

    /// Makes the stored admin visible.
    pub fn load_admin(&mut self, admin: Address)
        ensures
            final(self)@ == (EnvView {
                ledger: LedgerView { admin: Some(admin@), ..old(self)@.ledger },
                ..old(self)@
            }),
    {
        self.admin = Some(admin);
    }

    /// Makes the stored serial ranges visible.
    pub fn load_serial_registry(&mut self, ranges: Vec<SerialRange>)
        ensures
            final(self)@ == (EnvView {
                ledger: LedgerView { serial_registry: Some(ranges@), ..old(self)@.ledger },
                ..old(self)@
            }),
    {
        self.serial_registry = Some(ranges);
    }

    /// Makes the batch that is stored under `batch_id` visible.
    pub fn load_batch(&mut self, batch_id: Text, batch: CreditBatch)
        ensures
            final(self)@ == (EnvView {
                ledger: LedgerView {
                    batches: old(self)@.ledger.batches.insert(batch_id@, batch@),
                    ..old(self)@.ledger
                },
                ..old(self)@
            }),
    {
        self.batches.set(batch_id, batch);
    }

    /// Makes the certificate that is stored under `retirement_id` visible.
    pub fn load_retirement(&mut self, retirement_id: Text, certificate: RetirementCertificate)
        ensures
            final(self)@ == (EnvView {
                ledger: LedgerView {
                    retirements: old(self)@.ledger.retirements.insert(
                        retirement_id@,
                        certificate@,
                    ),
                    ..old(self)@.ledger
                },
                ..old(self)@
            }),
    {
        self.retirements.set(retirement_id, certificate);
    }

    /// Makes the batch ids that are stored for `project_id` visible.
    pub fn load_project_batches(&mut self, project_id: Text, batch_ids: Vec<Text>)
        ensures
            final(self)@ == (EnvView {
                ledger: LedgerView {
                    project_batches: old(self)@.ledger.project_batches.insert(
                        project_id@,
                        batch_ids.deep_view(),
                    ),
                    ..old(self)@.ledger
                },
                ..old(self)@
            }),
    {
        self.project_batches.set(project_id, batch_ids);
    }

    /// Makes the retirement counter that is stored for `batch_id` visible.
    pub fn load_retired(&mut self, batch_id: Text, amount: i128)
        ensures
            final(self)@ == (EnvView {
                ledger: LedgerView {
                    retired: old(self)@.ledger.retired.insert(batch_id@, amount),
                    ..old(self)@.ledger
                },
                ..old(self)@
            }),
    {
        self.retired.set(batch_id, amount);
    }

    /// The requests that were made of the network, in order.
    pub fn calls(&self) -> (calls: &Vec<HostCall>)
        ensures
            calls.deep_view() == self@.calls,
    {
        &self.calls
    }
}

/// What a call reads.
impl Env {
    /// The time of the call.
    pub(crate) fn timestamp(&self) -> (timestamp: u64)
        ensures
            timestamp == self@.timestamp,
    {
        self.timestamp
    }

    /// The address that may mint.
    pub(crate) fn admin(&self) -> (admin: Option<&Address>)
        ensures
            match admin {
                Some(a) => self@.ledger.admin == Some(a@),
                None => self@.ledger.admin is None,
            },
    {
        self.admin.as_ref()
    }

    /// The serial ranges of all batches.
    pub(crate) fn serial_registry(&self) -> (ranges: Option<Vec<SerialRange>>)
        ensures
            match ranges {
                Some(r) => self@.ledger.serial_registry == Some(r@),
                None => self@.ledger.serial_registry is None,
            },
    {
        match &self.serial_registry {
            Some(ranges) => Some(copy_ranges(ranges)),
            None => None,
        }
    }

    /// Whether a batch is stored under `batch_id`.
    pub(crate) fn has_batch(&self, batch_id: &Text) -> (found: bool)
        ensures
            found == self@.ledger.batches.contains_key(batch_id@),
    {
        self.batches.contains(batch_id)
    }

    /// The batch under `batch_id`.
    pub(crate) fn batch(&self, batch_id: &Text) -> (batch: Option<CreditBatch>)
        ensures
            match batch {
                Some(b) => self@.ledger.batches.contains_key(batch_id@)
                    && self@.ledger.batches[batch_id@] == b@,
                None => !self@.ledger.batches.contains_key(batch_id@),
            },
    {
        match self.batches.get(batch_id) {
            Some(batch) => Some(batch.clone()),
            None => None,
        }
    }

    /// Whether a certificate is stored under `retirement_id`.
    pub(crate) fn has_retirement(&self, retirement_id: &Text) -> (found: bool)
        ensures
            found == self@.ledger.retirements.contains_key(retirement_id@),
    {
        self.retirements.contains(retirement_id)
    }

    /// The certificate under `retirement_id`.
    pub(crate) fn retirement(&self, retirement_id: &Text) -> (certificate: Option<
        RetirementCertificate,
    >)
        ensures
            match certificate {
                Some(c) => self@.ledger.retirements.contains_key(retirement_id@)
                    && self@.ledger.retirements[retirement_id@] == c@,
                None => !self@.ledger.retirements.contains_key(retirement_id@),
            },
    {
        match self.retirements.get(retirement_id) {
            Some(certificate) => Some(certificate.clone()),
            None => None,
        }
    }

    /// The ids of the batches of `project_id`.
    pub(crate) fn project_batches(&self, project_id: &Text) -> (ids: Option<Vec<Text>>)
        ensures
            match ids {
                Some(i) => self@.ledger.project_batches.contains_key(project_id@)
                    && self@.ledger.project_batches[project_id@] == i.deep_view(),
                None => !self@.ledger.project_batches.contains_key(project_id@),
            },
    {
        match self.project_batches.get(project_id) {
            Some(ids) => Some(copy_ids(ids)),
            None => None,
        }
    }

    /// The retirement counter of `batch_id`.
    pub(crate) fn retired(&self, batch_id: &Text) -> (amount: Option<i128>)
        ensures
            match amount {
                Some(a) => self@.ledger.retired.contains_key(batch_id@)
                    && self@.ledger.retired[batch_id@] == a,
                None => !self@.ledger.retired.contains_key(batch_id@),
            },
    {
        match self.retired.get(batch_id) {
            Some(amount) => Some(*amount),
            None => None,
        }
    }
}

/// What a call asks of the network.
impl Env {
    /// Notes a request.
    fn note(&mut self, call: HostCall)
        ensures
            final(self)@ == (EnvView {
                calls: old(self)@.calls.push(call.deep_view()),
                ..old(self)@
            }),
    {
        self.calls.push(call);
        assert(self@.calls =~= old(self)@.calls.push(call.deep_view()));
    }

    /// Demands the signature of `address`.
    pub(crate) fn require_auth(&mut self, address: &Address)
        ensures
            final(self)@ == (EnvView {
                calls: old(self)@.calls.push(HostCallView::RequireAuth(address@)),
                ..old(self)@
            }),
    {
        self.note(HostCall::RequireAuth(address.clone()));
    }

    /// Prolongs the life of the entry under `key`.
    pub(crate) fn extend_ttl(&mut self, key: DataKey, threshold: u32, extend_to: u32)
        ensures
            final(self)@ == (EnvView {
                calls: old(self)@.calls.push(
                    HostCallView::ExtendTtl { key: key@, threshold, extend_to },
                ),
                ..old(self)@
            }),
    {
        self.note(HostCall::ExtendTtl { key, threshold, extend_to });
    }

    /// Publishes `event`.
    pub(crate) fn publish(&mut self, event: Event)
        ensures
            final(self)@ == (EnvView {
                calls: old(self)@.calls.push(HostCallView::Publish(event@)),
                ..old(self)@
            }),
    {
        self.note(HostCall::Publish(event));
    }

    /// Stores the address that may mint.
    pub(crate) fn set_admin(&mut self, admin: &Address)
        ensures
            final(self)@ == (EnvView {
                ledger: LedgerView { admin: Some(admin@), ..old(self)@.ledger },
                calls: old(self)@.calls.push(
                    HostCallView::Store(DataKeyView::Admin, EntryView::Address(admin@)),
                ),
                ..old(self)@
            }),
    {
        self.admin = Some(admin.clone());
        self.note(HostCall::Store(DataKey::Admin, Entry::Address(admin.clone())));
    }

    /// Stores the address of the contract that keeps the projects.
    pub(crate) fn set_registry_contract(&mut self, registry_contract: &Address)
        ensures
            final(self)@ == (EnvView {
                ledger: LedgerView {
                    registry_contract: Some(registry_contract@),
                    ..old(self)@.ledger
                },
                calls: old(self)@.calls.push(
                    HostCallView::Store(
                        DataKeyView::RegistryContract,
                        EntryView::Address(registry_contract@),
                    ),
                ),
                ..old(self)@
            }),
    {
        self.registry_contract = Some(registry_contract.clone());
        self.note(
            HostCall::Store(DataKey::RegistryContract, Entry::Address(registry_contract.clone())),
        );
    }

    /// Stores the serial ranges of all batches.
    pub(crate) fn set_serial_registry(&mut self, ranges: Vec<SerialRange>)
        ensures
            final(self)@ == (EnvView {
                ledger: LedgerView { serial_registry: Some(ranges@), ..old(self)@.ledger },
                calls: old(self)@.calls.push(
                    HostCallView::Store(DataKeyView::SerialRegistry, EntryView::SerialRanges(ranges@)),
                ),
                ..old(self)@
            }),
    {
        let stored = copy_ranges(&ranges);
        self.serial_registry = Some(ranges);
        self.note(HostCall::Store(DataKey::SerialRegistry, Entry::SerialRanges(stored)));
    }

    /// Stores a batch.
    pub(crate) fn set_batch(&mut self, batch_id: &Text, batch: &CreditBatch)
        ensures
            final(self)@ == (EnvView {
                ledger: LedgerView {
                    batches: old(self)@.ledger.batches.insert(batch_id@, batch@),
                    ..old(self)@.ledger
                },
                calls: old(self)@.calls.push(
                    HostCallView::Store(DataKeyView::Batch(batch_id@), EntryView::Batch(batch@)),
                ),
                ..old(self)@
            }),
    {
        self.batches.set(batch_id.clone(), batch.clone());
        self.note(HostCall::Store(DataKey::Batch(batch_id.clone()), Entry::Batch(batch.clone())));
    }

    /// Stores a certificate.
    pub(crate) fn set_retirement(
        &mut self,
        retirement_id: &Text,
        certificate: &RetirementCertificate,
    )
        ensures
            final(self)@ == (EnvView {
                ledger: LedgerView {
                    retirements: old(self)@.ledger.retirements.insert(
                        retirement_id@,
                        certificate@,
                    ),
                    ..old(self)@.ledger
                },
                calls: old(self)@.calls.push(
                    HostCallView::Store(
                        DataKeyView::Retirement(retirement_id@),
                        EntryView::Certificate(certificate@),
                    ),
                ),
                ..old(self)@
            }),
    {
        self.retirements.set(retirement_id.clone(), certificate.clone());
        self.note(
            HostCall::Store(
                DataKey::Retirement(retirement_id.clone()),
                Entry::Certificate(certificate.clone()),
            ),
        );
    }

    /// Stores the ids of the batches of a project.
    pub(crate) fn set_project_batches(&mut self, project_id: &Text, batch_ids: Vec<Text>)
        ensures
            final(self)@ == (EnvView {
                ledger: LedgerView {
                    project_batches: old(self)@.ledger.project_batches.insert(
                        project_id@,
                        batch_ids.deep_view(),
                    ),
                    ..old(self)@.ledger
                },
                calls: old(self)@.calls.push(
                    HostCallView::Store(
                        DataKeyView::ProjectBatches(project_id@),
                        EntryView::BatchIds(batch_ids.deep_view()),
                    ),
                ),
                ..old(self)@
            }),
    {
        let stored = copy_ids(&batch_ids);
        self.project_batches.set(project_id.clone(), batch_ids);
        self.note(
            HostCall::Store(DataKey::ProjectBatches(project_id.clone()), Entry::BatchIds(stored)),
        );
    }

    /// Stores a retirement counter.
    pub(crate) fn set_retired(&mut self, batch_id: &Text, amount: i128)
        ensures
            final(self)@ == (EnvView {
                ledger: LedgerView {
                    retired: old(self)@.ledger.retired.insert(batch_id@, amount),
                    ..old(self)@.ledger
                },
                calls: old(self)@.calls.push(
                    HostCallView::StoreRetired(RetiredKeyView::BatchRetired(batch_id@), amount),
                ),
                ..old(self)@
            }),
    {
        self.retired.set(batch_id.clone(), amount);
        self.note(HostCall::StoreRetired(RetiredKey::BatchRetired(batch_id.clone()), amount));
    }
}

} // verus!
