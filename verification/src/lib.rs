//! Credential and token lifecycle engine of an authentication service:
//! registration with e-mail verification, password login, signed access
//! tokens, rotating opaque refresh tokens and role based permissions with
//! per-user overrides.

pub mod bindings;
pub mod components;
pub mod entity;
pub mod http_response;
pub mod utils;
