use vstd::prelude::*;
use crate::bindings::clock::{utc_now_seconds, LAST_INSTANT};
use crate::entity::enums::token_type::TokenType;

verus! {

/// The longest span, in minutes, that can be added to an instant of the
/// clock within the machine's 64-bit seconds.
pub const MAX_SPAN_MINUTES: i64 = 150_000_000_000_000_000;

/// A token kept in storage: the verification token of an e-mail address, or
/// the digest of a refresh secret.
#[derive(Debug)]
pub struct Model {
    pub id: u128,
    pub user_id: u128,
    /// Unique. For a refresh token the digest of the secret, never the
    /// secret itself.
    pub token: String,
    pub token_type: TokenType,
    pub expires_at: i64,
    pub is_revoked: bool,
    pub created_at: i64,
    pub updated_at: i64,
}

/// What a stored token holds.
pub struct TokenView {
    pub id: u128,
    pub user_id: u128,
    pub token: Seq<char>,
    pub token_type: TokenType,
    pub expires_at: i64,
    pub is_revoked: bool,
    pub created_at: i64,
    pub updated_at: i64,
}

impl TokenView {
    /// The token has expired at `now`: its expiry lies in the past.
    pub open spec fn expired_at(self, now: i64) -> bool {
        now > self.expires_at
    }

    /// The token can still be used at `now`.
    pub open spec fn valid_at(self, now: i64) -> bool {
        !self.expired_at(now) && !self.is_revoked
    }

    /// Seconds for which the token can still be used at `now`.
    pub open spec fn remaining_at(self, now: i64) -> int {
        if self.expired_at(now) || self.is_revoked {
            0
        } else {
            self.expires_at - now
        }
    }

    /// The token expires no later than `minutes` after `now`.
    pub open spec fn expires_within(self, now: i64, minutes: i64) -> bool {
        self.expires_at <= now + minutes * 60
    }

    /// The token once revoked.
    pub open spec fn revoked(self) -> TokenView {
        TokenView { is_revoked: true, ..self }
    }
}

impl View for Model {
    type V = TokenView;

    open spec fn view(&self) -> TokenView {
        TokenView {
            id: self.id,
            user_id: self.user_id,
            token: self.token@,
            token_type: self.token_type,
            expires_at: self.expires_at,
            is_revoked: self.is_revoked,
            created_at: self.created_at,
            updated_at: self.updated_at,
        }
    }
}

/// What a client sends to have an access token looked into.
#[derive(Debug)]
pub struct IntrospectRequest {
    pub token: String,
}

/// What looking into an access token shows: whether it is good, and if so
/// whom and which token it names.
#[derive(Debug)]
pub struct IntrospectResponse {
    pub active: bool,
    pub sub: Option<String>,
    pub token_uuid: Option<String>,
}

/// A value by which a token is looked up.
#[derive(Debug)]
pub enum ValueFilterBy {
    String(String),
    Uuid(u128),
}

impl Model {
    pub fn duplicate(&self) -> (r: Model)
        ensures
            r@ == self@,
    {
        Model {
            id: self.id,
            user_id: self.user_id,
            token: self.token.clone(),
            token_type: self.token_type,
            expires_at: self.expires_at,
            is_revoked: self.is_revoked,
            created_at: self.created_at,
            updated_at: self.updated_at,
        }
    }

    /// Whether the token has expired at `now`.
    pub fn is_expired_at(&self, now: i64) -> (r: bool)
        ensures
            r == self@.expired_at(now),
    {
        now > self.expires_at
    }

    /// Whether the token is neither expired at `now` nor revoked.
    pub fn is_valid_at(&self, now: i64) -> (r: bool)
        ensures
            r == self@.valid_at(now),
    {
        !self.is_expired_at(now) && !self.is_revoked
    }

    /// Seconds of validity left at `now`.
    pub fn remaining_validity_seconds_at(&self, now: i64) -> (r: i64)
        requires
            0 <= now,
        ensures
            r == self@.remaining_at(now),
    {
        if self.is_expired_at(now) || self.is_revoked {
            0
        } else {
            self.expires_at - now
        }
    }

    /// Whether the token expires within `minutes` of `now`.
    pub fn expires_within_minutes_at(&self, now: i64, minutes: i64) -> (r: bool)
        requires
            0 <= now <= LAST_INSTANT,
            -MAX_SPAN_MINUTES <= minutes <= MAX_SPAN_MINUTES,
        ensures
            r == self@.expires_within(now, minutes),
    {
        let threshold: i64 = now + minutes * 60;
        self.expires_at <= threshold
    }

    /// Check if the token is expired, by the system clock.
    pub fn is_expired(&self) -> (r: bool)
        ensures
            exists|now: i64| 0 <= now <= LAST_INSTANT && r == self@.expired_at(now),
    {
        let now: i64 = utc_now_seconds();
        self.is_expired_at(now)
    }

    /// Check if the token is valid (not expired and not revoked), by the
    /// system clock.
    pub fn is_valid(&self) -> (r: bool)
        ensures
            exists|now: i64| 0 <= now <= LAST_INSTANT && r == self@.valid_at(now),
            self@.is_revoked ==> !r,
    {
        let now: i64 = utc_now_seconds();
        self.is_valid_at(now)
    }

    /// Check if the token is an access token.
    pub fn is_access_token(&self) -> (r: bool)
        ensures
            r == (self@.token_type == TokenType::Access),
    {
        self.token_type.is_access_token()
    }

    /// Check if the token is a refresh token.
    pub fn is_refresh_token(&self) -> (r: bool)
        ensures
            r == (self@.token_type == TokenType::Refresh),
    {
        self.token_type.is_refresh_token()
    }

    /// Check if the token is a verification token (email or password reset).
    pub fn is_verification_token(&self) -> (r: bool)
        ensures
            r == (self@.token_type == TokenType::EmailVerification || self@.token_type
                == TokenType::ResetPassword),
    {
        self.token_type.is_verification_token()
    }

    /// Get remaining validity time in seconds, by the system clock.
    pub fn remaining_validity_seconds(&self) -> (r: i64)
        ensures
            exists|now: i64| 0 <= now <= LAST_INSTANT && r == self@.remaining_at(now),
            self@.is_revoked ==> r == 0,
            r >= 0,
    {
        let now: i64 = utc_now_seconds();
        self.remaining_validity_seconds_at(now)
    }

    /// Check if token will expire within given minutes, by the system clock.
    pub fn expires_within_minutes(&self, minutes: i64) -> (r: bool)
        requires
            -MAX_SPAN_MINUTES <= minutes <= MAX_SPAN_MINUTES,
        ensures
            exists|now: i64| 0 <= now <= LAST_INSTANT && r == self@.expires_within(now, minutes),
    {
        let now: i64 = utc_now_seconds();
        self.expires_within_minutes_at(now, minutes)
    }
}

} // verus!
