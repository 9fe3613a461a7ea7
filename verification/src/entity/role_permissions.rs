use vstd::prelude::*;

verus! {

/// Grant of one permission to one role.
#[derive(Debug, Clone, Copy, PartialEq, Eq, Structural)]
pub struct Model {
    pub role_id: u128,
    pub permission_id: u128,
}

} // verus!
