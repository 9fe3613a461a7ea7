//! Outgoing mail.

pub mod services;
