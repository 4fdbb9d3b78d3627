//! The bodies of answers, as they leave.

pub mod transaction;
