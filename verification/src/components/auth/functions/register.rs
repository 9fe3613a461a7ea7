//! Registering: from an address, a username and a password to an account
//! that waits for its address to be confirmed.

use vstd::prelude::*;
use crate::bindings::email::{email_address_valid, is_valid_email_address};
use crate::bindings::random::{format_uuid, uuid_text};
use crate::bindings::clock::LAST_INSTANT;
use crate::components::auth::functions::protocol::{
    refuse, refuse_because, refuses, Material, Reply, Request, Step, INSERT_ATTEMPTS,
};
use crate::components::auth::functions::token::refresh_secret;
use crate::components::tokens::services::{verification_token, TokensService};
use crate::components::users::services::{new_account, UsersService};
use crate::entity::users::{AuthRequestBody, Model, RegisterResponseBody, UserView};
use crate::http_response::HttpCodeW;
use crate::utils::helpers::{is_duplicate_key, reports_duplicate_key};
use crate::utils::text::opt_text;

verus! {

/// Where a registration stands.
#[derive(Debug)]
#[allow(inconsistent_fields)]
pub enum RegisterState {
    /// Nothing done yet.
    Start { payload: Option<AuthRequestBody>, ip_address: String },
    /// An account with the address has been asked for.
    AwaitExisting { payload: AuthRequestBody, ip_address: String },
    /// The address is free; the clock and fresh values have been asked for.
    AwaitMaterial { payload: AuthRequestBody, username: String, ip_address: String },
    /// The password is being hashed.
    AwaitHash { payload: AuthRequestBody, username: String, ip_address: String, material: Material },
    /// The account is being stored.
    AwaitUserStored { material: Material, email: String },
    /// Storage refused the account for a value that is taken; whether it is
    /// the address is being looked up.
    AwaitRecheck { detail: String },
    /// The verification token is being stored. `attempts` counts the
    /// tokens that storage refused because their values were taken.
    AwaitTokenStored { user: Model, now: i64, attempts: usize },
    /// The token was refused because its values were taken: fresh ones
    /// have been asked for.
    AwaitFreshToken { user: Model, now: i64, attempts: usize },
    /// The verification message is being sent.
    AwaitMail { user: Model },
    /// The registration has ended.
    Closed,
}

impl RegisterState {
    /// What the state holds of the clock is in range.
    pub open spec fn wf(&self) -> bool {
        match *self {
            RegisterState::AwaitHash { material, .. } => material.wf(),
            RegisterState::AwaitUserStored { material, .. } => material.wf(),
            RegisterState::AwaitTokenStored { now, attempts, .. } => 0 <= now <= LAST_INSTANT
                && attempts < INSERT_ATTEMPTS,
            RegisterState::AwaitFreshToken { now, attempts, .. } => 0 <= now <= LAST_INSTANT
                && attempts < INSERT_ATTEMPTS,
            _ => true,
        }
    }
}

/// Two requests say the same.
pub open spec fn same_request(a: AuthRequestBody, b: AuthRequestBody) -> bool {
    &&& a.email@ == b.email@
    &&& opt_text(a.username) == opt_text(b.username)
    &&& a.password@ == b.password@
    &&& opt_text(a.first_name) == opt_text(b.first_name)
    &&& opt_text(a.last_name) == opt_text(b.last_name)
}

/// What a registration answers with: the id in its text form, the address
/// and the status of the new account.
pub open spec fn reports(body: RegisterResponseBody, user: UserView) -> bool {
    &&& body.user_id@ == uuid_text(user.id)
    &&& body.email@ == user.email
    &&& body.status@ == user.status.code()
}

/// What a registration does next, given where it stands and what its host
/// answered.
pub open spec fn register_moves(
    state: RegisterState,
    reply: Reply,
    next: RegisterState,
    step: Step<RegisterResponseBody>,
) -> bool {
    match state {
        RegisterState::Start { payload, ip_address } => match payload {
            None => next is Closed && refuses(
                step,
                HttpCodeW::BadRequest,
                "Missing registration data"@,
            ),
            Some(request) => if !email_address_valid(request.email@) {
                next is Closed && refuses(step, HttpCodeW::BadRequest, "Invalid email format"@)
            } else {
                &&& step matches Step::Ask(Request::FindUserByEmail(email)) && email@
                    == request.email@
                &&& next matches RegisterState::AwaitExisting { payload: p, ip_address: ip }
                    && same_request(p, request) && ip@ == ip_address@
            },
        },
        RegisterState::AwaitExisting { payload, ip_address } => match reply {
            Reply::User(Some(_)) => next is Closed && refuses(
                step,
                HttpCodeW::Conflict,
                "User with this email already exists"@,
            ),
            Reply::User(None) => match payload.username {
                None => next is Closed && refuses(
                    step,
                    HttpCodeW::BadRequest,
                    "Missing username"@,
                ),
                Some(name) => {
                    &&& step matches Step::Ask(Request::Sample)
                    &&& next matches RegisterState::AwaitMaterial {
                        payload: p,
                        username,
                        ip_address: ip,
                    } && same_request(p, payload) && username@ == name@ && ip@ == ip_address@
                },
            },
            Reply::Failed(failure) => next is Closed && refuses(
                step,
                HttpCodeW::InternalServerError,
                failure.detail@,
            ),
            _ => next is Closed && refuses(
                step,
                HttpCodeW::InternalServerError,
                "Unexpected reply"@,
            ),
        },
        RegisterState::AwaitMaterial { payload, username, ip_address } => match reply {
            Reply::Material(material) if material.wf() => {
                &&& step matches Step::Ask(Request::HashPassword(password)) && password@
                    == payload.password@
                &&& next matches RegisterState::AwaitHash {
                    payload: p,
                    username: name,
                    ip_address: ip,
                    material: m,
                } && same_request(p, payload) && name@ == username@ && ip@ == ip_address@ && m
                    == material
            },
            _ => next is Closed && refuses(
                step,
                HttpCodeW::InternalServerError,
                "Unexpected reply"@,
            ),
        },
        RegisterState::AwaitHash { payload, username, ip_address, material } => match reply {
            Reply::Hashed(Some(hash)) => {
                &&& step matches Step::Ask(Request::InsertUser(user)) && user@ == new_account(
                    material.first_id,
                    payload.email@,
                    username@,
                    hash@,
                    opt_text(payload.first_name),
                    opt_text(payload.last_name),
                    ip_address@,
                    material.now,
                )
                &&& next matches RegisterState::AwaitUserStored { material: m, email } && m
                    == material && email@ == payload.email@
            },
            _ => next is Closed && refuses(
                step,
                HttpCodeW::InternalServerError,
                "Failed to hash password"@,
            ),
        },
        RegisterState::AwaitUserStored { material, email } => match reply {
            Reply::UserStored(user) => {
                &&& step matches Step::Ask(Request::InsertToken(token)) && token@
                    == verification_token(
                    material.second_id,
                    user.id,
                    refresh_secret(material.bytes@),
                    material.now,
                )
                &&& next matches RegisterState::AwaitTokenStored { user: u, now, attempts } && u@
                    == user@ && now == material.now && attempts == 0
            },
            Reply::Failed(failure) => if is_duplicate_key(failure) {
                &&& step matches Step::Ask(Request::FindUserByEmail(address)) && address@
                    == email@
                &&& next matches RegisterState::AwaitRecheck { detail } && detail@
                    == failure.detail@
            } else {
                next is Closed && refuses(
                    step,
                    HttpCodeW::InternalServerError,
                    "Error creating user: "@ + failure.detail@,
                )
            },
            _ => next is Closed && refuses(
                step,
                HttpCodeW::InternalServerError,
                "Unexpected reply"@,
            ),
        },
        RegisterState::AwaitRecheck { detail } => match reply {
            Reply::User(Some(_)) => next is Closed && refuses(
                step,
                HttpCodeW::Conflict,
                "User with this email already exists"@,
            ),
            _ => next is Closed && refuses(
                step,
                HttpCodeW::InternalServerError,
                "Error creating user: "@ + detail@,
            ),
        },
        RegisterState::AwaitTokenStored { user, now, attempts } => match reply {
            Reply::TokenStored(token) => {
                &&& step matches Step::Ask(Request::SendVerification { email, token: secret })
                    && email@ == user@.email && secret@ == token@.token
                &&& next matches RegisterState::AwaitMail { user: u } && u@ == user@
            },
            Reply::Failed(failure) => if !is_duplicate_key(failure) {
                next is Closed && refuses(step, HttpCodeW::InternalServerError, failure.detail@)
            } else if attempts + 1 < INSERT_ATTEMPTS {
                &&& step matches Step::Ask(Request::Sample)
                &&& next matches RegisterState::AwaitFreshToken { user: u, now: n, attempts: a }
                    && u@ == user@ && n == now && a == attempts + 1
            } else {
                next is Closed && refuses(
                    step,
                    HttpCodeW::InternalServerError,
                    "Failed to store verification token"@,
                )
            },
            _ => next is Closed && refuses(
                step,
                HttpCodeW::InternalServerError,
                "Unexpected reply"@,
            ),
        },
        RegisterState::AwaitFreshToken { user, now, attempts } => match reply {
            Reply::Material(material) => {
                &&& step matches Step::Ask(Request::InsertToken(token)) && token@
                    == verification_token(
                    material.second_id,
                    user.id,
                    refresh_secret(material.bytes@),
                    now,
                )
                &&& next matches RegisterState::AwaitTokenStored { user: u, now: n, attempts: a }
                    && u@ == user@ && n == now && a == attempts
            },
            _ => next is Closed && refuses(
                step,
                HttpCodeW::InternalServerError,
                "Unexpected reply"@,
            ),
        },
        RegisterState::AwaitMail { user } => {
            &&& next is Closed
            &&& step matches Step::Finish(Ok(body)) && reports(body, user@)
        },
        RegisterState::Closed => next is Closed && refuses(
            step,
            HttpCodeW::InternalServerError,
            "Unexpected reply"@,
        ),
    }
}

/// One step of a registration.
///
/// An address that is taken is a conflict. Otherwise the password is
/// hashed, the account stored as waiting for verification, a verification
/// token stored for it and the message with the token sent; whether the
/// message could be sent does not change the outcome. Where storage
/// refuses the account for a value that is taken, the address is looked up
/// once more: if another registration took it in the meantime, that is a
/// conflict too. A token that storage refuses because its values are taken
/// is replaced by one with fresh values, a bounded number of times.
pub fn register_logic(state: RegisterState, reply: Reply) -> (r: (
    RegisterState,
    Step<RegisterResponseBody>,
))
    requires
        state.wf(),
    ensures
        r.0.wf(),
        register_moves(state, reply, r.0, r.1),
{
    match state {
        RegisterState::Start { payload, ip_address } => match payload {
            None => (
                RegisterState::Closed,
                refuse(HttpCodeW::BadRequest, "Missing registration data"),
            ),
            Some(payload) => {
                if !is_valid_email_address(payload.email.as_str()) {
                    return (
                        RegisterState::Closed,
                        refuse(HttpCodeW::BadRequest, "Invalid email format"),
                    );
                }
                let email = payload.email.clone();
                (
                    RegisterState::AwaitExisting { payload, ip_address },
                    Step::Ask(Request::FindUserByEmail(email)),
                )
            },
        },
        RegisterState::AwaitExisting { payload, ip_address } => match reply {
            Reply::User(Some(_)) => (
                RegisterState::Closed,
                refuse(HttpCodeW::Conflict, "User with this email already exists"),
            ),
            Reply::User(None) => {
                let username = match &payload.username {
                    Some(name) => name.clone(),
                    None => {
                        return (
                            RegisterState::Closed,
                            refuse(HttpCodeW::BadRequest, "Missing username"),
                        );
                    },
                };
                (
                    RegisterState::AwaitMaterial { payload, username, ip_address },
                    Step::Ask(Request::Sample),
                )
            },
            Reply::Failed(failure) => (
                RegisterState::Closed,
                refuse(HttpCodeW::InternalServerError, failure.detail.as_str()),
            ),
            _ => (
                RegisterState::Closed,
                refuse(HttpCodeW::InternalServerError, "Unexpected reply"),
            ),
        },
        RegisterState::AwaitMaterial { payload, username, ip_address } => match reply {
            Reply::Material(material) => {
                if material.in_range() {
                    let password = payload.password.clone();
                    (
                        RegisterState::AwaitHash { payload, username, ip_address, material },
                        Step::Ask(Request::HashPassword(password)),
                    )
                } else {
                    (
                        RegisterState::Closed,
                        refuse(HttpCodeW::InternalServerError, "Unexpected reply"),
                    )
                }
            },
            _ => (
                RegisterState::Closed,
                refuse(HttpCodeW::InternalServerError, "Unexpected reply"),
            ),
        },
        RegisterState::AwaitHash { payload, username, ip_address, material } => match reply {
            Reply::Hashed(Some(hash)) => {
                let email = payload.email.clone();
                let user = UsersService::create_payload(
                    material.first_id,
                    payload,
                    username,
                    hash,
                    ip_address.as_str(),
                    material.now,
                );
                (
                    RegisterState::AwaitUserStored { material, email },
                    Step::Ask(Request::InsertUser(user)),
                )
            },
            _ => (
                RegisterState::Closed,
                refuse(HttpCodeW::InternalServerError, "Failed to hash password"),
            ),
        },
        RegisterState::AwaitUserStored { material, email } => match reply {
            Reply::UserStored(user) => {
                let token = TokensService::create_token(
                    material.second_id,
                    user.id,
                    &material.bytes,
                    material.now,
                );
                (
                    RegisterState::AwaitTokenStored { user, now: material.now, attempts: 0 },
                    Step::Ask(Request::InsertToken(token)),
                )
            },
            Reply::Failed(failure) => {
                if reports_duplicate_key(&failure) {
                    (
                        RegisterState::AwaitRecheck { detail: failure.detail },
                        Step::Ask(Request::FindUserByEmail(email)),
                    )
                } else {
                    (
                        RegisterState::Closed,
                        refuse_because(
                            HttpCodeW::InternalServerError,
                            "Error creating user: ",
                            failure.detail.as_str(),
                        ),
                    )
                }
            },
            _ => (
                RegisterState::Closed,
                refuse(HttpCodeW::InternalServerError, "Unexpected reply"),
            ),
        },
        RegisterState::AwaitRecheck { detail } => match reply {
            Reply::User(Some(_)) => (
                RegisterState::Closed,
                refuse(HttpCodeW::Conflict, "User with this email already exists"),
            ),
            _ => (
                RegisterState::Closed,
                refuse_because(
                    HttpCodeW::InternalServerError,
                    "Error creating user: ",
                    detail.as_str(),
                ),
            ),
        },
        RegisterState::AwaitTokenStored { user, now, attempts } => match reply {
            Reply::TokenStored(token) => {
                let email = user.email.clone();
                (
                    RegisterState::AwaitMail { user },
                    Step::Ask(Request::SendVerification { email, token: token.token }),
                )
            },
            Reply::Failed(failure) => {
                if !reports_duplicate_key(&failure) {
                    (
                        RegisterState::Closed,
                        refuse(HttpCodeW::InternalServerError, failure.detail.as_str()),
                    )
                } else if attempts + 1 < INSERT_ATTEMPTS {
                    (
                        RegisterState::AwaitFreshToken { user, now, attempts: attempts + 1 },
                        Step::Ask(Request::Sample),
                    )
                } else {
                    (
                        RegisterState::Closed,
                        refuse(
                            HttpCodeW::InternalServerError,
                            "Failed to store verification token",
                        ),
                    )
                }
            },
            _ => (
                RegisterState::Closed,
                refuse(HttpCodeW::InternalServerError, "Unexpected reply"),
            ),
        },
        RegisterState::AwaitFreshToken { user, now, attempts } => match reply {
            Reply::Material(material) => {
                let token = TokensService::create_token(
                    material.second_id,
                    user.id,
                    &material.bytes,
                    now,
                );
                (
                    RegisterState::AwaitTokenStored { user, now, attempts },
                    Step::Ask(Request::InsertToken(token)),
                )
            },
            _ => (
                RegisterState::Closed,
                refuse(HttpCodeW::InternalServerError, "Unexpected reply"),
            ),
        },
        RegisterState::AwaitMail { user } => (
            RegisterState::Closed,
            Step::Finish(
                Ok(
                    RegisterResponseBody {
                        user_id: format_uuid(user.id),
                        email: user.email,
                        status: user.status.as_str().to_owned(),
                    },
                ),
            ),
        ),
        RegisterState::Closed => (
            RegisterState::Closed,
            refuse(HttpCodeW::InternalServerError, "Unexpected reply"),
        ),
    }
}

} // verus!
