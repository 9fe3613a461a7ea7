use vstd::prelude::*;

verus! {

/// A named bundle of permissions.
#[derive(Debug)]
pub struct Model {
    pub id: u128,
    /// Unique code, such as `ADMIN`.
    pub code: String,
    pub description: Option<String>,
    /// Higher means more authority.
    pub priority: i32,
    pub created_at: i64,
    pub updated_at: i64,
}

} // verus!
