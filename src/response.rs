//! Builds the reply to an explain request from the outcome of connecting
//! to the ledger and fetching the transaction.

use vstd::prelude::*;
use crate::explain::{explains, opt_view, parse_transaction};
use crate::models::ExplainResponse;
use crate::raw::RawTransaction;

verus! {

/// HTTP status of a reply that carries an explanation.
pub const STATUS_OK: u16 = 200;

/// HTTP status of a reply to a request that could not be served.
pub const STATUS_BAD_REQUEST: u16 = 400;

/// HTTP status of a reply when the ledger could not be reached.
pub const STATUS_INTERNAL_ERROR: u16 = 500;

/// Why a transaction could not be fetched; each carries the cause as text.
#[derive(Clone, Debug)]
pub enum FetchError {
    /// The digest is not a well-formed transaction identifier.
    InvalidDigest(String),
    /// The remote call failed or the transaction does not exist.
    Remote(String),
}

/// The message shown for a fetch error.
pub open spec fn fetch_error_text(e: FetchError) -> Seq<char> {
    match e {
        FetchError::InvalidDigest(cause) => "Invalid transaction digest format: "@ + cause@,
        FetchError::Remote(cause) => "Failed to fetch transaction from Sui: "@ + cause@,
    }
}

impl FetchError {
    /// Writes the message shown for this error.
    pub fn message(&self) -> (r: String)
        ensures
            r@ == fetch_error_text(*self),
    {
        match self {
            FetchError::InvalidDigest(cause) => {
                let mut r = String::from_str("Invalid transaction digest format: ");
                r.append(cause.as_str());
                r
            },
            FetchError::Remote(cause) => {
                let mut r = String::from_str("Failed to fetch transaction from Sui: ");
                r.append(cause.as_str());
                r
            },
        }
    }
}

/// `r` is a failed reply with exactly the message `msg`.
pub open spec fn is_failure(r: ExplainResponse, msg: Seq<char>) -> bool {
    &&& !r.success
    &&& r.explanation is None
    &&& opt_view(r.error) == Some(msg)
}

/// The reply when no connection to the ledger could be made.
pub fn connection_failure(cause: &str) -> (r: (u16, ExplainResponse))
    ensures
        r.0 == STATUS_INTERNAL_ERROR,
        is_failure(r.1, "Failed to connect to Sui: "@ + cause@),
{
    let mut msg = String::from_str("Failed to connect to Sui: ");
    msg.append(cause);
    (STATUS_INTERNAL_ERROR, ExplainResponse { success: false, explanation: None, error: Some(msg) })
}

/// The reply to a request for `digest` once the fetch has been made: the
/// explanation of the fetched transaction, or the fetch error's message.
pub fn respond(digest: &str, fetched: &Result<RawTransaction, FetchError>) -> (r: (
    u16,
    ExplainResponse,
))
    ensures
        match fetched {
            Ok(tx) => {
                &&& r.0 == STATUS_OK
                &&& r.1.success
                &&& r.1.error is None
                &&& r.1.explanation is Some
                &&& explains(r.1.explanation->0, digest@, *tx)
            },
            Err(e) => r.0 == STATUS_BAD_REQUEST && is_failure(r.1, fetch_error_text(*e)),
        },
{
    match fetched {
        Ok(tx) => {
            let explanation = parse_transaction(digest, tx);
            (
                STATUS_OK,
                ExplainResponse { success: true, explanation: Some(explanation), error: None },
            )
        },
        Err(e) => (
            STATUS_BAD_REQUEST,
            ExplainResponse { success: false, explanation: None, error: Some(e.message()) },
        ),
    }
}

} // verus!
