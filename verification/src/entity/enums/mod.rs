//! The closed vocabularies: roles, account states and kinds of token.

pub mod token_type;
pub mod user_role;
pub mod user_status;
