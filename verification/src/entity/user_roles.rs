use vstd::prelude::*;

verus! {

/// Assignment of one role to one user.
#[derive(Debug, Clone, Copy, PartialEq, Eq, Structural)]
pub struct Model {
    pub user_id: u128,
    pub role_id: u128,
}

} // verus!
