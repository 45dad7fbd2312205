//! A ledger of carbon credits: batches of serially numbered credits are
//! minted, change owner, and are retired for good.
//!
//! [`CarbonCreditContract`] holds the calls. A call works on an [`Env`]: the
//! stored entries that it looks at are loaded there beforehand, and what it asks
//! of the network (signatures, entries to store, lifetimes to prolong, events to
//! publish) is noted there, in order, for the network to carry out.
//!
//! What every call answers, stores and asks for is written down in [`rules`].
//! What that means in terms of the arguments and the stored entries alone is
//! proved in [`promises`], and how one call relates to the next in [`usage`]. What
//! follows for the ledger as a whole is proved in [`laws`], [`soundness`],
//! [`chronicle`] and [`numbering`].

#![allow(unused_imports)]

pub mod chronicle;
pub mod contract;
pub mod env;
pub mod error;
pub mod history;
pub mod host;
pub mod laws;
pub mod numbering;
pub mod promises;
pub mod records;
pub mod rules;
pub mod soundness;
mod table;
pub mod text;
pub mod usage;

pub use contract::CarbonCreditContract;
pub use env::Env;
pub use error::CarbonError;
pub use host::{DataKey, Entry, Event, HostCall, RetiredKey, TTL_LEDGERS};
pub use records::{CreditBatch, CreditStatus, RetirementCertificate, SerialRange};
pub use text::{Address, Text};
