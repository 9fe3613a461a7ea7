use vstd::prelude::*;

verus! {

/// What a stored token is for.
#[derive(Debug, Clone, Copy, PartialEq, Eq, Structural)]
pub enum TokenType {
    Access,
    Refresh,
    ResetPassword,
    EmailVerification,
}

impl TokenType {
    /// Spelling of the type in storage.
    pub open spec fn code(self) -> Seq<char> {
        match self {
            TokenType::Access => "ACCESS"@,
            TokenType::Refresh => "REFRESH"@,
            TokenType::ResetPassword => "RESET_PASSWORD"@,
            TokenType::EmailVerification => "EMAIL_VERIFICATION"@,
        }
    }

    /// Minutes a token of this type lives when nothing else is configured.
    pub open spec fn default_minutes(self) -> int {
        match self {
            TokenType::Access => 15,
            TokenType::Refresh => 10080,
            TokenType::ResetPassword => 60,
            TokenType::EmailVerification => 1440,
        }
    }

    pub fn as_str(&self) -> (r: &'static str)
        ensures
            r@ == self.code(),
    {
        match self {
            TokenType::Access => "ACCESS",
            TokenType::Refresh => "REFRESH",
            TokenType::ResetPassword => "RESET_PASSWORD",
            TokenType::EmailVerification => "EMAIL_VERIFICATION",
        }
    }

    pub fn is_access_token(&self) -> (r: bool)
        ensures
            r == (*self == TokenType::Access),
    {
        matches!(self, TokenType::Access)
    }

    pub fn is_refresh_token(&self) -> (r: bool)
        ensures
            r == (*self == TokenType::Refresh),
    {
        matches!(self, TokenType::Refresh)
    }

    pub fn is_verification_token(&self) -> (r: bool)
        ensures
            r == (*self == TokenType::EmailVerification || *self == TokenType::ResetPassword),
    {
        matches!(self, TokenType::EmailVerification | TokenType::ResetPassword)
    }

    pub fn default_expiration_minutes(&self) -> (r: i64)
        ensures
            r == self.default_minutes(),
    {
        match self {
            TokenType::Access => 15,
            TokenType::Refresh => 10080,
            TokenType::ResetPassword => 60,
            TokenType::EmailVerification => 1440,
        }
    }
}

} // verus!
