//! The use cases, each as a state machine, and what they compute with:
//! resolved permissions, signed tokens and refresh secrets.

pub mod grants;
pub mod login;
pub mod protocol;
pub mod refresh;
pub mod register;
pub mod token;
pub mod verify;
