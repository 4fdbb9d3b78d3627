//! The bodies of requests, as they arrive.

pub mod payment;
pub mod transaction;
