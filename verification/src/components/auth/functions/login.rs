//! Logging in: from an address and a password to an access token and a
//! refresh secret.

use vstd::prelude::*;
use crate::bindings::email::{email_address_valid, is_valid_email_address};
use crate::components::auth::functions::grants::{
    effective_permissions, effective_roles, AccessTables,
};
use crate::bindings::clock::LAST_INSTANT;
use crate::components::auth::functions::protocol::{
    refuse, refuses, Lifetimes, Material, Reply, Request, Step, INSERT_ATTEMPTS,
};
use crate::utils::helpers::{check_if_is_duplicate_key_from_data_base, is_duplicate_key};
use crate::components::auth::functions::token::{
    build_claims, claims_for, compute_roles_and_permissions, opaque_refresh_from, refresh_digest,
    refresh_secret, DIGEST_CHARS, SECRET_CHARS,
};
use crate::components::tokens::services::{refresh_record, TokensService};
use crate::components::users::services::{admission, Admission, UsersService};
use crate::entity::users::{AuthRequestBody, AuthResponseBody, BodyToken, Model, UserView};
use crate::http_response::error_handler::{CustomError, DbFailure};
use crate::http_response::HttpCodeW;
use crate::utils::code_set::ascending;

verus! {

/// Where a login stands.
#[derive(Debug)]
#[allow(inconsistent_fields)]
pub enum LoginState {
    /// Nothing done yet.
    Start { payload: AuthRequestBody, ip_address: String, lifetimes: Lifetimes },
    /// The account has been asked for.
    AwaitUser { password: String, ip_address: String, lifetimes: Lifetimes },
    /// The account is known; the clock and fresh values have been asked
    /// for.
    AwaitMaterial { password: String, ip_address: String, lifetimes: Lifetimes, user: Model },
    /// The login is refused for want of verification; the note of it is
    /// being stored.
    AwaitAudit,
    /// The credentials hold; the account with the login noted is being
    /// stored.
    AwaitLoginStored { material: Material, lifetimes: Lifetimes },
    /// The rows that decide the claims have been asked for.
    AwaitAccess { user: Model, material: Material, lifetimes: Lifetimes },
    /// The claims are being signed.
    AwaitSigned { user: Model, material: Material, lifetimes: Lifetimes },
    /// The record of the refresh token is being stored. `attempts` counts
    /// the records that storage refused because their values were taken.
    AwaitRefreshStored {
        user: Model,
        access_token: String,
        refresh_raw: String,
        now: i64,
        lifetimes: Lifetimes,
        attempts: usize,
    },
    /// The record was refused because its values were taken: fresh ones
    /// have been asked for.
    AwaitFreshSecret {
        user: Model,
        access_token: String,
        now: i64,
        lifetimes: Lifetimes,
        attempts: usize,
    },
    /// The login has ended.
    Closed,
}

impl LoginState {
    /// What the state holds of lifetimes and of the clock is in range.
    pub open spec fn wf(&self) -> bool {
        match *self {
            LoginState::Start { lifetimes, .. } => lifetimes.wf(),
            LoginState::AwaitUser { lifetimes, .. } => lifetimes.wf(),
            LoginState::AwaitMaterial { lifetimes, .. } => lifetimes.wf(),
            LoginState::AwaitLoginStored { material, lifetimes } => material.wf() && lifetimes.wf(),
            LoginState::AwaitAccess { material, lifetimes, .. } => material.wf() && lifetimes.wf(),
            LoginState::AwaitSigned { material, lifetimes, .. } => material.wf() && lifetimes.wf(),
            LoginState::AwaitRefreshStored { now, lifetimes, attempts, .. } => 0 <= now
                <= LAST_INSTANT && lifetimes.wf() && attempts < INSERT_ATTEMPTS,
            LoginState::AwaitFreshSecret { now, lifetimes, attempts, .. } => 0 <= now
                <= LAST_INSTANT && lifetimes.wf() && attempts < INSERT_ATTEMPTS,
            _ => true,
        }
    }
}

/// What a login does next, given where it stands and what its host
/// answered.
pub open spec fn login_moves(
    state: LoginState,
    reply: Reply,
    next: LoginState,
    step: Step<AuthResponseBody>,
) -> bool {
    match state {
        LoginState::Start { payload, ip_address, lifetimes } => {
            if !email_address_valid(payload.email@) {
                next is Closed && refuses(step, HttpCodeW::BadRequest, "Invalid email format"@)
            } else {
                &&& step matches Step::Ask(Request::FindUserByEmail(email)) && email@
                    == payload.email@
                &&& next matches LoginState::AwaitUser {
                    password,
                    ip_address: ip,
                    lifetimes: l,
                } && password@ == payload.password@ && ip@ == ip_address@ && l == lifetimes
            }
        },
        LoginState::AwaitUser { password, ip_address, lifetimes } => match reply {
            Reply::User(Some(user)) => {
                &&& step matches Step::Ask(Request::Sample)
                &&& next matches LoginState::AwaitMaterial {
                    password: p,
                    ip_address: ip,
                    lifetimes: l,
                    user: u,
                } && p@ == password@ && ip@ == ip_address@ && l == lifetimes && u@ == user@
            },
            Reply::User(None) => next is Closed && refuses(
                step,
                HttpCodeW::NotFound,
                "User not found"@,
            ),
            Reply::Failed(failure) => next is Closed && refuses(
                step,
                HttpCodeW::InternalServerError,
                failure.detail@,
            ),
            _ => next is Closed && refuses(
                step,
                HttpCodeW::InternalServerError,
                "Unexpected reply"@,
            ),
        },
        LoginState::AwaitMaterial { password, ip_address, lifetimes, user } => match reply {
            Reply::Material(material) => if !material.wf() {
                next is Closed && refuses(
                    step,
                    HttpCodeW::InternalServerError,
                    "Unexpected reply"@,
                )
            } else {
                match admission(password@, ip_address@, user@, material.now) {
                    (Some(noted), true) => {
                        &&& step matches Step::Ask(Request::UpdateUser(u)) && u@ == noted
                        &&& next matches LoginState::AwaitLoginStored {
                            material: m,
                            lifetimes: l,
                        } && m == material && l == lifetimes
                    },
                    (Some(noted), false) => {
                        &&& step matches Step::Ask(Request::UpdateUser(u)) && u@ == noted
                        &&& next is AwaitAudit
                    },
                    _ => next is Closed && refuses(
                        step,
                        HttpCodeW::Unauthorized,
                        "Invalid credentials"@,
                    ),
                }
            },
            _ => next is Closed && refuses(
                step,
                HttpCodeW::InternalServerError,
                "Unexpected reply"@,
            ),
        },
        LoginState::AwaitAudit => next is Closed && refuses(
            step,
            HttpCodeW::Unauthorized,
            "User needs email verification"@,
        ),
        LoginState::AwaitLoginStored { material, lifetimes } => match reply {
            Reply::UserStored(user) => {
                &&& step matches Step::Ask(Request::LoadAccess(id)) && id == user.id
                &&& next matches LoginState::AwaitAccess { user: u, material: m, lifetimes: l }
                    && u@ == user@ && m == material && l == lifetimes
            },
            _ => next is Closed && refuses(
                step,
                HttpCodeW::InternalServerError,
                "Failed to update user"@,
            ),
        },
        LoginState::AwaitAccess { user, material, lifetimes } => match reply {
            Reply::Access(tables) => {
                &&& step matches Step::Ask(Request::Sign(claims)) && session_claims(
                    claims@.perms,
                    claims@.roles,
                    tables,
                    user@,
                ) && claims@ == claims_for(
                    user.id,
                    material.first_id,
                    material.now,
                    lifetimes.access_minutes,
                    claims@.perms,
                    claims@.roles,
                )
                &&& next matches LoginState::AwaitSigned { user: u, material: m, lifetimes: l }
                    && u@ == user@ && m == material && l == lifetimes
            },
            Reply::Failed(failure) => next is Closed && refuses(
                step,
                failure.kind.status(),
                failure.kind.message(failure.detail@),
            ),
            _ => next is Closed && refuses(
                step,
                HttpCodeW::InternalServerError,
                "Unexpected reply"@,
            ),
        },
        LoginState::AwaitSigned { user, material, lifetimes } => match reply {
            Reply::Signed(Some(token)) => {
                &&& step matches Step::Ask(Request::InsertToken(record)) && record@
                    == refresh_record(
                    material.second_id,
                    user.id,
                    refresh_digest(refresh_secret(material.bytes@)),
                    material.now,
                    lifetimes.refresh_days,
                ) && record@.token.len() == DIGEST_CHARS
                &&& next matches LoginState::AwaitRefreshStored {
                    user: u,
                    access_token,
                    refresh_raw,
                    now,
                    lifetimes: l,
                    attempts,
                } && u@ == user@ && access_token@ == token@ && refresh_raw@ == refresh_secret(
                    material.bytes@,
                ) && refresh_raw@.len() == SECRET_CHARS && now == material.now && l == lifetimes
                    && attempts == 0
            },
            _ => next is Closed && refuses(
                step,
                HttpCodeW::InternalServerError,
                "Failed to generate access token"@,
            ),
        },
        LoginState::AwaitRefreshStored {
            user,
            access_token,
            refresh_raw,
            now,
            lifetimes,
            attempts,
        } => match reply {
            Reply::TokenStored(_) => {
                &&& next is Closed
                &&& step matches Step::Finish(Ok(bundle)) && opens_session(
                    bundle,
                    user@.email,
                    user@.username,
                    access_token@,
                    refresh_raw@,
                )
            },
            Reply::Failed(failure) => if !is_duplicate_key(failure) {
                next is Closed && refuses(
                    step,
                    failure.kind.status(),
                    failure.kind.message(failure.detail@),
                )
            } else if attempts + 1 < INSERT_ATTEMPTS {
                &&& step matches Step::Ask(Request::Sample)
                &&& next matches LoginState::AwaitFreshSecret {
                    user: u,
                    access_token: t,
                    now: n,
                    lifetimes: l,
                    attempts: a,
                } && u@ == user@ && t@ == access_token@ && n == now && l == lifetimes && a
                    == attempts + 1
            } else {
                next is Closed && refuses(
                    step,
                    HttpCodeW::InternalServerError,
                    "Failed to store refresh token"@,
                )
            },
            _ => next is Closed && refuses(
                step,
                HttpCodeW::InternalServerError,
                "Unexpected reply"@,
            ),
        },
        LoginState::AwaitFreshSecret { user, access_token, now, lifetimes, attempts } => match reply {
            Reply::Material(material) => {
                &&& step matches Step::Ask(Request::InsertToken(record)) && record@
                    == refresh_record(
                    material.second_id,
                    user.id,
                    refresh_digest(refresh_secret(material.bytes@)),
                    now,
                    lifetimes.refresh_days,
                ) && record@.token.len() == DIGEST_CHARS
                &&& next matches LoginState::AwaitRefreshStored {
                    user: u,
                    access_token: t,
                    refresh_raw,
                    now: n,
                    lifetimes: l,
                    attempts: a,
                } && u@ == user@ && t@ == access_token@ && refresh_raw@ == refresh_secret(
                    material.bytes@,
                ) && refresh_raw@.len() == SECRET_CHARS && n == now && l == lifetimes && a
                    == attempts
            },
            _ => next is Closed && refuses(
                step,
                HttpCodeW::InternalServerError,
                "Unexpected reply"@,
            ),
        },
        LoginState::Closed => next is Closed && refuses(
            step,
            HttpCodeW::InternalServerError,
            "Unexpected reply"@,
        ),
    }
}

/// The roles and permissions are those of the user under the tables, each
/// in ascending order.
pub open spec fn session_claims(
    perms: Seq<Seq<char>>,
    roles: Seq<Seq<char>>,
    tables: AccessTables,
    user: UserView,
) -> bool {
    &&& ascending(roles)
    &&& roles.to_set() == effective_roles(tables, Some(user.role), user.id)
    &&& ascending(perms)
    &&& perms.to_set() == effective_permissions(tables, Some(user.role), user.id)
}

/// The bundle is the one handed out for the given account and tokens.
pub open spec fn opens_session(
    bundle: AuthResponseBody,
    email: Seq<char>,
    username: Seq<char>,
    access_token: Seq<char>,
    refresh_raw: Seq<char>,
) -> bool {
    &&& bundle.body.email@ == email
    &&& bundle.body.username@ == username
    &&& bundle.body.access_token@ == access_token
    &&& bundle.refresh_token@ == refresh_raw
}

/// The failure of a storage request, as the outcome of the use case.
pub fn storage_refusal<T>(failure: DbFailure) -> (r: Step<T>)
    ensures
        refuses(r, failure.kind.status(), failure.kind.message(failure.detail@)),
{
    Step::Finish(Err(CustomError::from(failure)))
}

/// The bundle handed out at the end of a login or a refresh.
pub fn session_bundle(user: &Model, access_token: String, refresh_raw: String) -> (r:
    AuthResponseBody)
    ensures
        opens_session(r, user@.email, user@.username, access_token@, refresh_raw@),
{
    AuthResponseBody {
        body: BodyToken {
            email: user.email.clone(),
            username: user.username.clone(),
            access_token,
        },
        refresh_token: refresh_raw,
    }
}

/// The request to sign the claims of the next access token of `user`.
pub fn ask_signature(
    tables: &AccessTables,
    user: &Model,
    material: &Material,
    lifetimes: &Lifetimes,
) -> (r: Request)
    requires
        material.wf(),
        lifetimes.wf(),
    ensures
        r matches Request::Sign(claims) && session_claims(
            claims@.perms,
            claims@.roles,
            *tables,
            user@,
        ) && claims@ == claims_for(
            user.id,
            material.first_id,
            material.now,
            lifetimes.access_minutes,
            claims@.perms,
            claims@.roles,
        ),
{
    let (roles, perms) = compute_roles_and_permissions(tables, Some(user.role), user.id);
    Request::Sign(
        build_claims(
            user.id,
            material.first_id,
            material.now,
            lifetimes.access_minutes,
            perms,
            roles,
        ),
    )
}

/// One step of a login.
///
/// The account is looked up by its address; an account that waits for
/// verification is refused whatever the password, after the attempt has
/// been noted on it; any other account is admitted only where it is active
/// and the password fits. An admitted login is noted on the account, then
/// the claims are resolved and signed and the record of a fresh refresh
/// token is stored. A record that storage refuses because its values are
/// taken is replaced by one with fresh values, a bounded number of times.
pub fn login_logic(state: LoginState, reply: Reply) -> (r: (LoginState, Step<AuthResponseBody>))
    requires
        state.wf(),
    ensures
        r.0.wf(),
        login_moves(state, reply, r.0, r.1),
{
    match state {
        LoginState::Start { payload, ip_address, lifetimes } => {
            if !is_valid_email_address(payload.email.as_str()) {
                return (LoginState::Closed, refuse(HttpCodeW::BadRequest, "Invalid email format"));
            }
            (
                LoginState::AwaitUser { password: payload.password, ip_address, lifetimes },
                Step::Ask(Request::FindUserByEmail(payload.email)),
            )
        },
        LoginState::AwaitUser { password, ip_address, lifetimes } => match reply {
            Reply::User(Some(user)) => (
                LoginState::AwaitMaterial { password, ip_address, lifetimes, user },
                Step::Ask(Request::Sample),
            ),
            Reply::User(None) => (
                LoginState::Closed,
                refuse(HttpCodeW::NotFound, "User not found"),
            ),
            Reply::Failed(failure) => (
                LoginState::Closed,
                refuse(HttpCodeW::InternalServerError, failure.detail.as_str()),
            ),
            _ => (LoginState::Closed, refuse(HttpCodeW::InternalServerError, "Unexpected reply")),
        },
        LoginState::AwaitMaterial { password, ip_address, lifetimes, user } => match reply {
            Reply::Material(material) => {
                if !material.in_range() {
                    return (
                        LoginState::Closed,
                        refuse(HttpCodeW::InternalServerError, "Unexpected reply"),
                    );
                }
                match UsersService::check_credentials_and_email_verification(
                    password.as_str(),
                    ip_address.as_str(),
                    user,
                    material.now,
                ) {
                    Admission::Granted(noted) => (
                        LoginState::AwaitLoginStored { material, lifetimes },
                        Step::Ask(Request::UpdateUser(noted)),
                    ),
                    Admission::Pending(noted) => (
                        LoginState::AwaitAudit,
                        Step::Ask(Request::UpdateUser(noted)),
                    ),
                    Admission::Refused => (
                        LoginState::Closed,
                        refuse(HttpCodeW::Unauthorized, "Invalid credentials"),
                    ),
                }
            },
            _ => (LoginState::Closed, refuse(HttpCodeW::InternalServerError, "Unexpected reply")),
        },
        LoginState::AwaitAudit => (
            LoginState::Closed,
            refuse(HttpCodeW::Unauthorized, "User needs email verification"),
        ),
        LoginState::AwaitLoginStored { material, lifetimes } => match reply {
            Reply::UserStored(user) => {
                let id: u128 = user.id;
                (
                    LoginState::AwaitAccess { user, material, lifetimes },
                    Step::Ask(Request::LoadAccess(id)),
                )
            },
            _ => (
                LoginState::Closed,
                refuse(HttpCodeW::InternalServerError, "Failed to update user"),
            ),
        },
        LoginState::AwaitAccess { user, material, lifetimes } => match reply {
            Reply::Access(tables) => {
                let request = ask_signature(&tables, &user, &material, &lifetimes);
                (LoginState::AwaitSigned { user, material, lifetimes }, Step::Ask(request))
            },
            Reply::Failed(failure) => (LoginState::Closed, storage_refusal(failure)),
            _ => (LoginState::Closed, refuse(HttpCodeW::InternalServerError, "Unexpected reply")),
        },
        LoginState::AwaitSigned { user, material, lifetimes } => match reply {
            Reply::Signed(Some(access_token)) => {
                let (refresh_raw, digest) = opaque_refresh_from(&material.bytes);
                let record = TokensService::create_refresh_token(
                    material.second_id,
                    user.id,
                    digest,
                    material.now,
                    lifetimes.refresh_days,
                );
                (
                    LoginState::AwaitRefreshStored {
                        user,
                        access_token,
                        refresh_raw,
                        now: material.now,
                        lifetimes,
                        attempts: 0,
                    },
                    Step::Ask(Request::InsertToken(record)),
                )
            },
            _ => (
                LoginState::Closed,
                refuse(HttpCodeW::InternalServerError, "Failed to generate access token"),
            ),
        },
        LoginState::AwaitRefreshStored {
            user,
            access_token,
            refresh_raw,
            now,
            lifetimes,
            attempts,
        } => match reply {
            Reply::TokenStored(_) => (
                LoginState::Closed,
                Step::Finish(Ok(session_bundle(&user, access_token, refresh_raw))),
            ),
            Reply::Failed(failure) => {
                let mut attempts = attempts;
                match check_if_is_duplicate_key_from_data_base::<Model>(
                    &mut attempts,
                    Err(failure),
                ) {
                    Some(Ok(_)) => (
                        LoginState::Closed,
                        refuse(HttpCodeW::InternalServerError, "Unexpected reply"),
                    ),
                    Some(Err(error)) => (LoginState::Closed, Step::Finish(Err(error))),
                    None => {
                        if attempts < INSERT_ATTEMPTS {
                            (
                                LoginState::AwaitFreshSecret {
                                    user,
                                    access_token,
                                    now,
                                    lifetimes,
                                    attempts,
                                },
                                Step::Ask(Request::Sample),
                            )
                        } else {
                            (
                                LoginState::Closed,
                                refuse(
                                    HttpCodeW::InternalServerError,
                                    "Failed to store refresh token",
                                ),
                            )
                        }
                    },
                }
            },
            _ => (LoginState::Closed, refuse(HttpCodeW::InternalServerError, "Unexpected reply")),
        },
        LoginState::AwaitFreshSecret { user, access_token, now, lifetimes, attempts } => match reply {
            Reply::Material(material) => {
                let (refresh_raw, digest) = opaque_refresh_from(&material.bytes);
                let record = TokensService::create_refresh_token(
                    material.second_id,
                    user.id,
                    digest,
                    now,
                    lifetimes.refresh_days,
                );
                (
                    LoginState::AwaitRefreshStored {
                        user,
                        access_token,
                        refresh_raw,
                        now,
                        lifetimes,
                        attempts,
                    },
                    Step::Ask(Request::InsertToken(record)),
                )
            },
            _ => (LoginState::Closed, refuse(HttpCodeW::InternalServerError, "Unexpected reply")),
        },
        LoginState::Closed => (
            LoginState::Closed,
            refuse(HttpCodeW::InternalServerError, "Unexpected reply"),
        ),
    }
}

} // verus!
