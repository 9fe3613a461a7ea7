use vstd::prelude::*;

verus! {

/// Exception for one user and one permission: granted whatever the roles
/// say where `allow` holds, withheld whatever they say where it does not.
#[derive(Debug, Clone, Copy, PartialEq, Eq, Structural)]
pub struct Model {
    pub user_id: u128,
    pub permission_id: u128,
    pub allow: bool,
}

} // verus!
