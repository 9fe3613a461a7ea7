//! Stored tokens.

pub mod services;
