use vstd::prelude::*;

verus! {

/// Lifecycle state of an account.
#[derive(Debug, Clone, Copy, PartialEq, Eq, Structural)]
pub enum UserStatus {
    Active,
    Inactive,
    Suspended,
    PendingVerification,
}

impl UserStatus {
    pub fn is_active(&self) -> (r: bool)
        ensures
            r == (*self == UserStatus::Active),
    {
        matches!(self, UserStatus::Active)
    }

    pub fn is_suspended(&self) -> (r: bool)
        ensures
            r == (*self == UserStatus::Suspended),
    {
        matches!(self, UserStatus::Suspended)
    }

    /// Spelling of the status in storage and in responses.
    pub open spec fn code(self) -> Seq<char> {
        match self {
            UserStatus::Active => "ACTIVE"@,
            UserStatus::Inactive => "INACTIVE"@,
            UserStatus::Suspended => "SUSPENDED"@,
            UserStatus::PendingVerification => "PENDING_VERIFICATION"@,
        }
    }

    pub fn as_str(&self) -> (r: &'static str)
        ensures
            r@ == self.code(),
    {
        match self {
            UserStatus::Active => "ACTIVE",
            UserStatus::Inactive => "INACTIVE",
            UserStatus::Suspended => "SUSPENDED",
            UserStatus::PendingVerification => "PENDING_VERIFICATION",
        }
    }
}

} // verus!
