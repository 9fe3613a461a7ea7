//! Accounts.

pub mod services;
