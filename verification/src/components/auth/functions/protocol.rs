//! What a use case asks of its host, and what the host answers.
//!
//! A use case is a state machine. It never touches storage, the clock or a
//! key itself: each step hands back the next thing to be done, a
//! [`Request`], and goes on when it is given the [`Reply`]. The host may be
//! the tables of this library or a database.

use vstd::prelude::*;
use crate::bindings::clock::{utc_now_seconds, LAST_INSTANT};
use crate::bindings::password::bcrypt_verdict;
use crate::bindings::random::{fresh_uuid, is_random_uuid, random_bytes_32};
use crate::components::auth::functions::grants::AccessTables;
use crate::bindings::jwt::token_claims;
use crate::components::auth::functions::token::{
    claim_fields, sign_claims, signing_key_usable, TokenClaims,
};
use crate::components::tokens::services::MAX_SPAN_DAYS;
use crate::entity::tokens::MAX_SPAN_MINUTES;
use crate::entity::{tokens, users};
use crate::http_response::error_handler::{CustomError, DbFailure};
use crate::http_response::HttpCodeW;
use crate::utils::helpers::hash_password;
use crate::utils::text::join;

verus! {

/// What a use case draws from the clock and from chance.
#[derive(Debug)]
pub struct Material {
    /// The instant of the request, in seconds since the epoch.
    pub now: i64,
    /// Two fresh identifiers.
    pub first_id: u128,
    pub second_id: u128,
    /// The bytes of a fresh secret.
    pub bytes: [u8; 32],
}

impl Material {
    /// The instant is one the clock can show.
    pub open spec fn wf(&self) -> bool {
        0 <= self.now <= LAST_INSTANT
    }

    /// Whether the instant is one the clock can show.
    pub fn in_range(&self) -> (r: bool)
        ensures
            r == self.wf(),
    {
        0 <= self.now && self.now <= LAST_INSTANT
    }
}

/// How long the tokens of a session live.
#[derive(Debug, Clone, Copy, PartialEq, Eq, Structural)]
pub struct Lifetimes {
    /// Life of an access token, in minutes.
    pub access_minutes: i64,
    /// Life of a refresh token, in days.
    pub refresh_days: i64,
}

impl Lifetimes {
    /// Both lives can be added to an instant of the clock.
    pub open spec fn wf(&self) -> bool {
        &&& -MAX_SPAN_MINUTES <= self.access_minutes <= MAX_SPAN_MINUTES
        &&& -MAX_SPAN_DAYS <= self.refresh_days <= MAX_SPAN_DAYS
    }

    /// The lifetimes, where both can be added to an instant of the clock.
    pub fn new(access_minutes: i64, refresh_days: i64) -> (r: Option<Lifetimes>)
        ensures
            match r {
                Some(l) => l.wf() && l.access_minutes == access_minutes && l.refresh_days
                    == refresh_days,
                None => !(Lifetimes { access_minutes, refresh_days }).wf(),
            },
    {
        if -MAX_SPAN_MINUTES <= access_minutes && access_minutes <= MAX_SPAN_MINUTES
            && -MAX_SPAN_DAYS <= refresh_days && refresh_days <= MAX_SPAN_DAYS {
            Some(Lifetimes { access_minutes, refresh_days })
        } else {
            None
        }
    }
}

/// How often a write with fresh random values is tried before a use case
/// gives up on values that are taken.
pub const INSERT_ATTEMPTS: usize = 3;

/// What a use case asks of its host.
#[derive(Debug)]
pub enum Request {
    /// Read the clock and draw fresh identifiers and a fresh secret.
    Sample,
    /// Hash the password for storage.
    HashPassword(String),
    /// Sign the claims of an access token.
    Sign(TokenClaims),
    /// Look the account with the address up.
    FindUserByEmail(String),
    /// Look the account with the id up.
    FindUserById(u128),
    /// Store a new account.
    InsertUser(users::Model),
    /// Store an account over the one with its id.
    UpdateUser(users::Model),
    /// Store a new token.
    InsertToken(tokens::Model),
    /// Store a token over the one with its id.
    UpdateToken(tokens::Model),
    /// Look the token up that is not revoked and holds the string.
    FindOpenToken(String),
    /// Look the refresh token up that holds the digest and can be used at
    /// `now`.
    FindActiveRefreshToken { digest: String, now: i64 },
    /// Hand over the rows that decide what the user may do.
    LoadAccess(u128),
    /// Open a transaction.
    Begin,
    /// Make the writes since `Begin` permanent.
    Commit,
    /// Undo the writes since `Begin`.
    Rollback,
    /// Send the verification message for `token` to `email`.
    SendVerification { email: String, token: String },
}

/// What a host answers.
#[derive(Debug)]
pub enum Reply {
    /// Nothing has been asked yet.
    Started,
    Material(Material),
    /// The hash, or nothing where hashing failed.
    Hashed(Option<String>),
    /// The signed token, or nothing where signing failed.
    Signed(Option<String>),
    /// The account looked up, or nothing where there is none.
    User(Option<users::Model>),
    /// The account as it was stored.
    UserStored(users::Model),
    /// The token looked up, or nothing where there is none.
    Token(Option<tokens::Model>),
    /// The token as it was stored.
    TokenStored(tokens::Model),
    Access(AccessTables),
    /// Done, with nothing to report.
    Done,
    /// Storage failed.
    Failed(DbFailure),
}

/// The next move of a use case: a request to its host, or its outcome.
#[derive(Debug)]
pub enum Step<T> {
    Ask(Request),
    Finish(Result<T, CustomError>),
}

/// The step ends the use case with the given failure.
pub open spec fn refuses<T>(step: Step<T>, status: HttpCodeW, message: Seq<char>) -> bool {
    step matches Step::Finish(Err(e)) && e.is(status, message)
}

/// The step that ends a use case with a failure.
pub fn refuse<T>(status: HttpCodeW, message: &str) -> (r: Step<T>)
    ensures
        refuses(r, status, message@),
{
    Step::Finish(Err(CustomError::with(status, message)))
}

/// The step that ends a use case with a failure whose message is made of
/// two parts.
pub fn refuse_because<T>(status: HttpCodeW, preamble: &str, detail: &str) -> (r: Step<T>)
    ensures
        refuses(r, status, preamble@ + detail@),
{
    Step::Finish(
        Err(CustomError { error_status_code: status, error_message: join(preamble, detail) }),
    )
}

/// Reads the clock and draws fresh identifiers and a fresh secret.
pub fn sample() -> (r: Material)
    ensures
        r.wf(),
        is_random_uuid(r.first_id),
        is_random_uuid(r.second_id),
{
    Material {
        now: utc_now_seconds(),
        first_id: fresh_uuid(),
        second_id: fresh_uuid(),
        bytes: random_bytes_32(),
    }
}

/// Serves the requests that need no storage: sampling, hashing and
/// signing. Any other request is answered with [`Reply::Done`]. A token
/// that comes back signed carries the claims that were handed in.
pub fn perform(request: &Request, private_key: &str) -> (r: Reply)
    ensures
        match *request {
            Request::Sample => r matches Reply::Material(m) && m.wf(),
            Request::HashPassword(password) => r matches Reply::Hashed(hash) && (hash matches Some(
                h,
            ) ==> bcrypt_verdict(password@, h@) == Some(true)),
            Request::Sign(claims) => r matches Reply::Signed(token) && (token matches Some(t)
                ==> t@.len() > 0 && token_claims(t@) == claim_fields(claims@)) && (
            !signing_key_usable(private_key@) ==> token is None),
            _ => r is Done,
        },
{
    match request {
        Request::Sample => Reply::Material(sample()),
        Request::HashPassword(password) => match hash_password(password.as_str()) {
            Ok(hash) => Reply::Hashed(Some(hash)),
            Err(_) => Reply::Hashed(None),
        },
        Request::Sign(claims) => match sign_claims(claims, private_key) {
            Ok(token) => Reply::Signed(Some(token)),
            Err(_) => Reply::Signed(None),
        },
        _ => Reply::Done,
    }
}

} // verus!
