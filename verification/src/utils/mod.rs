//! Building blocks shared by the components.

pub mod code_set;
pub mod helpers;
pub mod text;
