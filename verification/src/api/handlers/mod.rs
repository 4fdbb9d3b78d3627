//! The handlers of the gateway's endpoints, as the decisions they take.

pub mod post_transaction;
