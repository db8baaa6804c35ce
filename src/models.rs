//! The records handed back to callers.

use vstd::prelude::*;
use crate::format::{format_sui, sui_text};

verus! {

/// A request to explain one transaction, named by its digest.
#[derive(Clone, Debug)]
pub struct ExplainRequest {
    pub digest: String,
}

/// The answer to a request: an explanation on success, a message otherwise.
#[derive(Clone, Debug)]
pub struct ExplainResponse {
    pub success: bool,
    pub explanation: Option<TransactionExplanation>,
    pub error: Option<String>,
}

/// Readable account of one transaction.
#[derive(Clone, Debug)]
pub struct TransactionExplanation {
    pub digest: String,
    pub sender: String,
    pub status: String,
    /// Total gas in MIST (10^9 MIST make one coin).
    pub gas_used: u64,
    /// `gas_used` as coins with six decimals and the unit suffix.
    pub gas_used_sui: String,
    /// One sentence per object change, in the order of `object_changes`.
    pub actions: Vec<String>,
    pub object_changes: Vec<ObjectMod>,
    pub balance_changes: Vec<BalanceChange>,
    pub events: Vec<String>,
    pub summary: String,
}

/// One object created, transferred, modified or deleted.
#[derive(Clone, Debug)]
pub struct ObjectMod {
    pub change_type: String,
    pub object_type: String,
    pub object_id: String,
    pub owner: Option<String>,
    pub details: String,
}

/// One balance delta of one owner in one coin type.
#[derive(Clone, Debug)]
pub struct BalanceChange {
    pub owner: String,
    pub coin_type: String,
    /// Negative when sent, positive when received.
    pub amount: i128,
    pub amount_readable: String,
}

impl TransactionExplanation {
    /// The zero value for a digest: empty text, no gas, no entries.
    pub open spec fn is_empty_for(self, digest: Seq<char>) -> bool {
        &&& self.digest@ == digest
        &&& self.sender@ == Seq::<char>::empty()
        &&& self.status@ == Seq::<char>::empty()
        &&& self.gas_used == 0
        &&& self.gas_used_sui@ == sui_text(0)
        &&& self.actions@.len() == 0
        &&& self.object_changes@.len() == 0
        &&& self.balance_changes@.len() == 0
        &&& self.events@.len() == 0
        &&& self.summary@ == Seq::<char>::empty()
    }

    /// Builds the zero value for a digest.
    pub fn empty(digest: &str) -> (r: TransactionExplanation)
        ensures
            r.is_empty_for(digest@),
    {
        TransactionExplanation {
            digest: String::from_str(digest),
            sender: String::new(),
            status: String::new(),
            gas_used: 0,
            gas_used_sui: format_sui(0),
            actions: Vec::new(),
            object_changes: Vec::new(),
            balance_changes: Vec::new(),
            events: Vec::new(),
            summary: String::new(),
        }
    }
}

impl Default for TransactionExplanation {
    fn default() -> (r: TransactionExplanation)
        ensures
            r.is_empty_for(Seq::<char>::empty()),
    {
        proof {
            reveal_strlit("");
        }
        assert(""@ =~= Seq::<char>::empty());
        TransactionExplanation::empty("")
    }
}

} // verus!
