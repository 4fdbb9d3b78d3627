//! What the HTTP surface of the gateway decides: how a request becomes
//! the parts of a transaction, which lookups follow, and what is answered.

pub mod error;
pub mod handlers;
pub mod requests;
pub mod responses;
