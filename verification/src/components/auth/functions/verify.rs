//! Confirming an address: the verification token is used up and the
//! account becomes active.

use vstd::prelude::*;
use crate::components::auth::functions::protocol::{
    refuse, refuse_because, refuses, Material, Reply, Request, Step,
};
use crate::components::tokens::services::{consumed, TokensService};
use crate::components::users::services::{entry, note_verified, UsersService};
use crate::entity::{tokens, users};
use crate::http_response::HttpCodeW;

verus! {

/// Where a confirmation stands.
#[derive(Debug)]
#[allow(inconsistent_fields)]
pub enum VerifyState {
    /// Nothing done yet.
    Start { token: String, ip_address: String },
    /// The token has been asked for.
    AwaitToken { ip_address: String },
    /// The owner of the token has been asked for.
    AwaitUser { token: tokens::Model, ip_address: String },
    /// The clock has been asked for.
    AwaitMaterial { token: tokens::Model, user: users::Model, ip_address: String },
    /// The confirmed account is being stored.
    AwaitUserStored { token: tokens::Model },
    /// The used token is being stored.
    AwaitTokenStored,
    /// The confirmation has ended.
    Closed,
}

/// What a successful confirmation answers with.
pub open spec fn confirmation() -> Seq<char> {
    "Email verified successfully"@
}

/// What a confirmation does next, given where it stands and what its host
/// answered.
pub open spec fn verify_moves(
    state: VerifyState,
    reply: Reply,
    next: VerifyState,
    step: Step<String>,
) -> bool {
    match state {
        VerifyState::Start { token, ip_address } => {
            &&& step matches Step::Ask(Request::FindOpenToken(value)) && value@ == token@
            &&& next matches VerifyState::AwaitToken { ip_address: ip } && ip@ == ip_address@
        },
        VerifyState::AwaitToken { ip_address } => match reply {
            Reply::Token(Some(token)) => {
                &&& step matches Step::Ask(Request::FindUserById(id)) && id == token.user_id
                &&& next matches VerifyState::AwaitUser { token: t, ip_address: ip } && t@
                    == token@ && ip@ == ip_address@
            },
            Reply::Token(None) => next is Closed && refuses(
                step,
                HttpCodeW::Forbidden,
                "Token not found or None"@,
            ),
            Reply::Failed(failure) => next is Closed && refuses(
                step,
                HttpCodeW::InternalServerError,
                "Database error: "@ + failure.detail@,
            ),
            _ => next is Closed && refuses(
                step,
                HttpCodeW::InternalServerError,
                "Unexpected reply"@,
            ),
        },
        VerifyState::AwaitUser { token, ip_address } => match reply {
            Reply::User(Some(user)) => {
                &&& step matches Step::Ask(Request::Sample)
                &&& next matches VerifyState::AwaitMaterial { token: t, user: u, ip_address: ip }
                    && t@ == token@ && u@ == user@ && ip@ == ip_address@
            },
            Reply::User(None) => next is Closed && refuses(
                step,
                HttpCodeW::NotFound,
                "User not found: User not found"@,
            ),
            Reply::Failed(failure) => next is Closed && refuses(
                step,
                HttpCodeW::InternalServerError,
                "Database error: "@ + failure.detail@,
            ),
            _ => next is Closed && refuses(
                step,
                HttpCodeW::InternalServerError,
                "Unexpected reply"@,
            ),
        },
        VerifyState::AwaitMaterial { token, user, ip_address } => match reply {
            Reply::Material(material) if material.wf() => {
                &&& step matches Step::Ask(Request::UpdateUser(u)) && u@ == user@.noted(
                    entry(material.now, note_verified(), ip_address@),
                ).verified()
                &&& next matches VerifyState::AwaitUserStored { token: t } && t@ == token@
            },
            _ => next is Closed && refuses(
                step,
                HttpCodeW::InternalServerError,
                "Unexpected reply"@,
            ),
        },
        VerifyState::AwaitUserStored { token } => match reply {
            Reply::UserStored(_) => {
                &&& step matches Step::Ask(Request::UpdateToken(used)) && used@ == consumed(token@)
                &&& next is AwaitTokenStored
            },
            _ => next is Closed && refuses(
                step,
                HttpCodeW::InternalServerError,
                "Failed to update user's email verification status"@,
            ),
        },
        VerifyState::AwaitTokenStored => match reply {
            Reply::TokenStored(_) => next is Closed && (step matches Step::Finish(Ok(message))
                && message@ == confirmation()),
            Reply::Failed(failure) => next is Closed && refuses(
                step,
                HttpCodeW::InternalServerError,
                "Failed to revoke token: "@ + failure.detail@,
            ),
            _ => next is Closed && refuses(
                step,
                HttpCodeW::InternalServerError,
                "Unexpected reply"@,
            ),
        },
        VerifyState::Closed => next is Closed && refuses(
            step,
            HttpCodeW::InternalServerError,
            "Unexpected reply"@,
        ),
    }
}

/// One step of the confirmation of an address.
///
/// The token is looked up among those that are not revoked; none found is
/// forbidden, and a token whose owner is gone finds no user. The owner of
/// the token becomes active and verified, which is noted on the account;
/// only after the account has been stored is the token marked as used.
/// Whatever storage fails at is an internal error.
impl TokensService {

pub fn set_verified_email(state: VerifyState, reply: Reply) -> (r: (VerifyState, Step<String>))
    ensures
        verify_moves(state, reply, r.0, r.1),
{
    match state {
        VerifyState::Start { token, ip_address } => (
            VerifyState::AwaitToken { ip_address },
            Step::Ask(Request::FindOpenToken(token)),
        ),
        VerifyState::AwaitToken { ip_address } => match reply {
            Reply::Token(Some(token)) => {
                let id: u128 = token.user_id;
                (VerifyState::AwaitUser { token, ip_address }, Step::Ask(Request::FindUserById(id)))
            },
            Reply::Token(None) => (
                VerifyState::Closed,
                refuse(HttpCodeW::Forbidden, "Token not found or None"),
            ),
            Reply::Failed(failure) => (
                VerifyState::Closed,
                refuse_because(
                    HttpCodeW::InternalServerError,
                    "Database error: ",
                    failure.detail.as_str(),
                ),
            ),
            _ => (VerifyState::Closed, refuse(HttpCodeW::InternalServerError, "Unexpected reply")),
        },
        VerifyState::AwaitUser { token, ip_address } => match reply {
            Reply::User(Some(user)) => (
                VerifyState::AwaitMaterial { token, user, ip_address },
                Step::Ask(Request::Sample),
            ),
            Reply::User(None) => (
                VerifyState::Closed,
                refuse(HttpCodeW::NotFound, "User not found: User not found"),
            ),
            Reply::Failed(failure) => (
                VerifyState::Closed,
                refuse_because(
                    HttpCodeW::InternalServerError,
                    "Database error: ",
                    failure.detail.as_str(),
                ),
            ),
            _ => (VerifyState::Closed, refuse(HttpCodeW::InternalServerError, "Unexpected reply")),
        },
        VerifyState::AwaitMaterial { token, user, ip_address } => match reply {
            Reply::Material(material) => {
                if material.in_range() {
                    let mut confirmed = user;
                    UsersService::update(&mut confirmed, ip_address.as_str(), material.now);
                    (
                        VerifyState::AwaitUserStored { token },
                        Step::Ask(Request::UpdateUser(confirmed)),
                    )
                } else {
                    (
                        VerifyState::Closed,
                        refuse(HttpCodeW::InternalServerError, "Unexpected reply"),
                    )
                }
            },
            _ => (VerifyState::Closed, refuse(HttpCodeW::InternalServerError, "Unexpected reply")),
        },
        VerifyState::AwaitUserStored { token } => match reply {
            Reply::UserStored(_) => {
                let mut used = token;
                TokensService::consume_token(&mut used);
                (VerifyState::AwaitTokenStored, Step::Ask(Request::UpdateToken(used)))
            },
            _ => (
                VerifyState::Closed,
                refuse(
                    HttpCodeW::InternalServerError,
                    "Failed to update user's email verification status",
                ),
            ),
        },
        VerifyState::AwaitTokenStored => match reply {
            Reply::TokenStored(_) => (
                VerifyState::Closed,
                Step::Finish(Ok("Email verified successfully".to_owned())),
            ),
            Reply::Failed(failure) => (
                VerifyState::Closed,
                refuse_because(
                    HttpCodeW::InternalServerError,
                    "Failed to revoke token: ",
                    failure.detail.as_str(),
                ),
            ),
            _ => (VerifyState::Closed, refuse(HttpCodeW::InternalServerError, "Unexpected reply")),
        },
        VerifyState::Closed => (
            VerifyState::Closed,
            refuse(HttpCodeW::InternalServerError, "Unexpected reply"),
        ),
    }
}

}

} // verus!
