use vstd::prelude::*;

verus! {

/// An atomic capability.
#[derive(Debug)]
pub struct Model {
    pub id: u128,
    /// Unique dotted code, such as `user.read`.
    pub code: String,
    pub description: Option<String>,
    pub created_at: i64,
    pub updated_at: i64,
}

} // verus!
