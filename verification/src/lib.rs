//! The multi-token standard (NEP-246): account and token records, the transfer-call
//! protocol with its approval ledger, and the event lines that make every completed
//! action visible to indexers.

pub mod account;
pub mod assoc;
pub mod event;
pub mod host;
pub mod json;
pub mod multi_token;
