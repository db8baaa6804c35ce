//! Turns a ledger transaction record into a flat, readable explanation.

pub mod explain;
pub mod format;
pub mod laws;
pub mod models;
pub mod raw;
pub mod response;
pub mod text;
