use vstd::prelude::*;

verus! {

/// Role stored on the account itself.
#[derive(Debug, Clone, Copy, PartialEq, Eq, Structural)]
pub enum UserRole {
    Admin,
    User,
    Moderator,
    Guest,
    Operator,
}

impl Default for UserRole {
    fn default() -> (r: Self)
        ensures
            r == UserRole::User,
    {
        UserRole::User
    }
}

impl UserRole {
    /// Code of the role, as the role table spells it.
    pub open spec fn code(self) -> Seq<char> {
        match self {
            UserRole::Admin => "ADMIN"@,
            UserRole::User => "USER"@,
            UserRole::Moderator => "MODERATOR"@,
            UserRole::Guest => "GUEST"@,
            UserRole::Operator => "OPERATOR"@,
        }
    }

    pub fn as_str(&self) -> (r: &'static str)
        ensures
            r@ == self.code(),
    {
        match self {
            UserRole::Admin => "ADMIN",
            UserRole::User => "USER",
            UserRole::Moderator => "MODERATOR",
            UserRole::Guest => "GUEST",
            UserRole::Operator => "OPERATOR",
        }
    }

    pub fn is_admin(&self) -> (r: bool)
        ensures
            r == (*self == UserRole::Admin),
    {
        matches!(self, UserRole::Admin)
    }

    pub fn is_moderator_or_admin(&self) -> (r: bool)
        ensures
            r == (*self == UserRole::Admin || *self == UserRole::Moderator),
    {
        matches!(self, UserRole::Admin | UserRole::Moderator)
    }

    pub fn can_manage_users(&self) -> (r: bool)
        ensures
            r == (*self == UserRole::Admin),
    {
        matches!(self, UserRole::Admin)
    }

    pub fn can_moderate_content(&self) -> (r: bool)
        ensures
            r == (*self == UserRole::Admin || *self == UserRole::Moderator),
    {
        matches!(self, UserRole::Admin | UserRole::Moderator)
    }
}

} // verus!
