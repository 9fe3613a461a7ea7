//! Settings.

pub mod services;
