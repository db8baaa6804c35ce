//! The transaction record as the ledger's read API reports it, reduced to
//! the plain values that explanations are built from.

use vstd::prelude::*;

verus! {

/// How the ledger reports the outcome of execution.
#[derive(Clone, Debug)]
pub enum ExecutionStatus {
    Success,
    /// Carries the ledger's description of the failure.
    Failure(String),
}

/// Breakdown of the gas charged, in MIST.
#[derive(Clone, Copy, Debug)]
pub struct GasCostSummary {
    pub computation_cost: u64,
    pub storage_cost: u64,
    pub storage_rebate: u64,
}

/// The effects section of a transaction.
#[derive(Clone, Debug)]
pub struct RawEffects {
    pub status: ExecutionStatus,
    pub gas: GasCostSummary,
}

/// One entry of the object-changes section.
#[derive(Clone, Debug)]
pub enum RawObjectChange {
    Created { object_id: String, object_type: String, owner: String },
    Transferred { object_id: String, object_type: String, sender: String, recipient: String },
    Mutated { object_id: String, object_type: String, owner: String },
    Deleted { object_id: String, object_type: String },
    /// A shape this library does not describe (a published package, a
    /// wrapped object).
    Other,
}

/// One entry of the balance-changes section.
#[derive(Clone, Debug)]
pub struct RawBalanceChange {
    pub owner: String,
    pub coin_type: String,
    pub amount: i128,
}

/// One emitted event.
#[derive(Clone, Debug)]
pub struct RawEvent {
    pub event_type: String,
    pub package_id: String,
}

/// A fetched transaction; each section may be missing.
#[derive(Clone, Debug)]
pub struct RawTransaction {
    pub sender: Option<String>,
    pub effects: Option<RawEffects>,
    pub object_changes: Option<Vec<RawObjectChange>>,
    pub balance_changes: Option<Vec<RawBalanceChange>>,
    pub events: Option<Vec<RawEvent>>,
}

} // verus!
