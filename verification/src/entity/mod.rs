//! Records of the service and the closed vocabularies they use.
//!
//! Identifiers are 128-bit numbers (the value of a UUID) and instants are
//! whole seconds since the Unix epoch, UTC.

pub mod enums;
pub mod permissions;
pub mod role_permissions;
pub mod roles;
pub mod sessions;
pub mod tokens;
pub mod user_permission_overrides;
pub mod user_roles;
pub mod users;
