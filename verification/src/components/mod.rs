//! The use cases and the services they are made of.

pub mod auth;
pub mod config;
pub mod mail_send;
pub mod tokens;
pub mod users;
