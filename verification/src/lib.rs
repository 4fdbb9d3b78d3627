//! Core of a payment gateway: money, payment instruments, routing decisions,
//! transaction assembly and the masked response that leaves the system.

pub mod account;
pub mod amount;
pub mod api;
pub mod billing;
pub mod card_scheme;
pub mod country;
pub mod currency;
pub mod customer;
pub mod db;
pub mod error;
pub mod merchant;
pub mod payment;
pub mod payment_type;
pub mod repo;
pub mod shared;
pub mod text;
pub mod transaction;
pub mod utils;
