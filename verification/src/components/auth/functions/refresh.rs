//! Rotating a refresh token: the presented secret is used up and a new one
//! handed out, in one transaction.

use vstd::prelude::*;
use crate::components::auth::functions::login::{
    ask_signature, opens_session, session_bundle, session_claims,
};
use crate::components::auth::functions::protocol::{
    refuses, Lifetimes, Material, Reply, Request, Step,
};
use crate::components::auth::functions::token::{
    claims_for, hash_refresh, opaque_refresh_from, refresh_digest, refresh_secret, DIGEST_CHARS,
    SECRET_CHARS,
};
use crate::components::tokens::services::{refresh_record, TokensService};
use crate::entity::users::{AuthResponseBody, Model};
use crate::http_response::error_handler::CustomError;
use crate::http_response::HttpCodeW;
use crate::utils::text::join;

verus! {

/// Where a rotation stands.
#[derive(Debug)]
#[allow(inconsistent_fields)]
pub enum RefreshState {
    /// Nothing done yet. The secret is what the client's cookie held.
    Start { cookie: Option<String>, lifetimes: Lifetimes },
    /// The clock and fresh values have been asked for.
    AwaitMaterial { secret: String, lifetimes: Lifetimes },
    /// The transaction is being opened.
    AwaitBegin { secret: String, material: Material, lifetimes: Lifetimes },
    /// The record of the presented secret has been asked for.
    AwaitOld { material: Material, lifetimes: Lifetimes },
    /// The presented token is being revoked.
    AwaitRevoked { user_id: u128, material: Material, lifetimes: Lifetimes },
    /// The record of the new token is being stored.
    AwaitNew { user_id: u128, refresh_raw: String, material: Material, lifetimes: Lifetimes },
    /// The owner of the token has been asked for.
    AwaitUser { refresh_raw: String, material: Material, lifetimes: Lifetimes },
    /// The rows that decide the claims have been asked for.
    AwaitAccess { user: Model, refresh_raw: String, material: Material, lifetimes: Lifetimes },
    /// The claims are being signed.
    AwaitSigned { user: Model, refresh_raw: String },
    /// The transaction is being committed.
    AwaitCommit { bundle: AuthResponseBody },
    /// Something failed: the transaction is being rolled back.
    Closing { error: CustomError },
    /// The rotation has ended.
    Closed,
}

impl RefreshState {
    /// What the state holds of lifetimes and of the clock is in range.
    pub open spec fn wf(&self) -> bool {
        match *self {
            RefreshState::Start { lifetimes, .. } => lifetimes.wf(),
            RefreshState::AwaitMaterial { lifetimes, .. } => lifetimes.wf(),
            RefreshState::AwaitBegin { material, lifetimes, .. } => material.wf() && lifetimes.wf(),
            RefreshState::AwaitOld { material, lifetimes } => material.wf() && lifetimes.wf(),
            RefreshState::AwaitRevoked { material, lifetimes, .. } => material.wf()
                && lifetimes.wf(),
            RefreshState::AwaitNew { material, lifetimes, .. } => material.wf() && lifetimes.wf(),
            RefreshState::AwaitUser { material, lifetimes, .. } => material.wf() && lifetimes.wf(),
            RefreshState::AwaitAccess { material, lifetimes, .. } => material.wf()
                && lifetimes.wf(),
            _ => true,
        }
    }
}

/// The rotation gives up: it asks for the rollback and keeps the failure to
/// end with.
pub open spec fn gives_up(
    next: RefreshState,
    step: Step<AuthResponseBody>,
    status: HttpCodeW,
    message: Seq<char>,
) -> bool {
    &&& step matches Step::Ask(Request::Rollback)
    &&& next matches RefreshState::Closing { error } && error.is(status, message)
}

/// What a rotation does next, given where it stands and what its host
/// answered.
pub open spec fn refresh_moves(
    state: RefreshState,
    reply: Reply,
    next: RefreshState,
    step: Step<AuthResponseBody>,
) -> bool {
    match state {
        RefreshState::Start { cookie, lifetimes } => match cookie {
            None => next is Closed && refuses(
                step,
                HttpCodeW::Unauthorized,
                "Missing refresh token"@,
            ),
            Some(presented) => {
                &&& step matches Step::Ask(Request::Sample)
                &&& next matches RefreshState::AwaitMaterial { secret, lifetimes: l } && secret@
                    == presented@ && l == lifetimes
            },
        },
        RefreshState::AwaitMaterial { secret, lifetimes } => match reply {
            Reply::Material(material) if material.wf() => {
                &&& step matches Step::Ask(Request::Begin)
                &&& next matches RefreshState::AwaitBegin { secret: s, material: m, lifetimes: l }
                    && s@ == secret@ && m == material && l == lifetimes
            },
            _ => next is Closed && refuses(
                step,
                HttpCodeW::InternalServerError,
                "Unexpected reply"@,
            ),
        },
        RefreshState::AwaitBegin { secret, material, lifetimes } => match reply {
            Reply::Done => {
                &&& step matches Step::Ask(Request::FindActiveRefreshToken { digest, now })
                    && digest@ == refresh_digest(secret@) && now == material.now
                &&& next matches RefreshState::AwaitOld { material: m, lifetimes: l } && m
                    == material && l == lifetimes
            },
            Reply::Failed(failure) => next is Closed && refuses(
                step,
                HttpCodeW::InternalServerError,
                "Txn begin error: "@ + failure.detail@,
            ),
            _ => next is Closed && refuses(
                step,
                HttpCodeW::InternalServerError,
                "Unexpected reply"@,
            ),
        },
        RefreshState::AwaitOld { material, lifetimes } => match reply {
            Reply::Token(Some(token)) => {
                &&& step matches Step::Ask(Request::UpdateToken(revoked)) && revoked@
                    == token@.revoked()
                &&& next matches RefreshState::AwaitRevoked { user_id, material: m, lifetimes: l }
                    && user_id == token.user_id && m == material && l == lifetimes
            },
            Reply::Token(None) => gives_up(
                next,
                step,
                HttpCodeW::Unauthorized,
                "Invalid refresh token"@,
            ),
            Reply::Failed(failure) => gives_up(
                next,
                step,
                failure.kind.status(),
                failure.kind.message(failure.detail@),
            ),
            _ => gives_up(next, step, HttpCodeW::InternalServerError, "Unexpected reply"@),
        },
        RefreshState::AwaitRevoked { user_id, material, lifetimes } => match reply {
            Reply::TokenStored(_) => {
                &&& step matches Step::Ask(Request::InsertToken(record)) && record@
                    == refresh_record(
                    material.second_id,
                    user_id,
                    refresh_digest(refresh_secret(material.bytes@)),
                    material.now,
                    lifetimes.refresh_days,
                ) && record@.token.len() == DIGEST_CHARS
                &&& next matches RefreshState::AwaitNew {
                    user_id: id,
                    refresh_raw,
                    material: m,
                    lifetimes: l,
                } && id == user_id && refresh_raw@ == refresh_secret(material.bytes@)
                    && refresh_raw@.len() == SECRET_CHARS && m == material && l == lifetimes
            },
            Reply::Failed(failure) => gives_up(
                next,
                step,
                HttpCodeW::InternalServerError,
                "Token revoke error: "@ + failure.detail@,
            ),
            _ => gives_up(next, step, HttpCodeW::InternalServerError, "Unexpected reply"@),
        },
        RefreshState::AwaitNew { user_id, refresh_raw, material, lifetimes } => match reply {
            Reply::TokenStored(_) => {
                &&& step matches Step::Ask(Request::FindUserById(id)) && id == user_id
                &&& next matches RefreshState::AwaitUser { refresh_raw: raw, material: m, lifetimes: l }
                    && raw@ == refresh_raw@ && m == material && l == lifetimes
            },
            Reply::Failed(failure) => gives_up(
                next,
                step,
                HttpCodeW::InternalServerError,
                "Create new refresh token error: "@ + failure.detail@,
            ),
            _ => gives_up(next, step, HttpCodeW::InternalServerError, "Unexpected reply"@),
        },
        RefreshState::AwaitUser { refresh_raw, material, lifetimes } => match reply {
            Reply::User(Some(user)) => {
                &&& step matches Step::Ask(Request::LoadAccess(id)) && id == user.id
                &&& next matches RefreshState::AwaitAccess {
                    user: u,
                    refresh_raw: raw,
                    material: m,
                    lifetimes: l,
                } && u@ == user@ && raw@ == refresh_raw@ && m == material && l == lifetimes
            },
            Reply::User(None) => gives_up(
                next,
                step,
                HttpCodeW::InternalServerError,
                "Failed to fetch user: User not found"@,
            ),
            Reply::Failed(failure) => gives_up(
                next,
                step,
                HttpCodeW::InternalServerError,
                "Failed to fetch user: "@ + failure.detail@,
            ),
            _ => gives_up(next, step, HttpCodeW::InternalServerError, "Unexpected reply"@),
        },
        RefreshState::AwaitAccess { user, refresh_raw, material, lifetimes } => match reply {
            Reply::Access(tables) => {
                &&& step matches Step::Ask(Request::Sign(claims)) && session_claims(
                    claims@.perms,
                    claims@.roles,
                    tables,
                    user@,
                ) && claims@ == claims_for(
                    user.id,
                    material.first_id,
                    material.now,
                    lifetimes.access_minutes,
                    claims@.perms,
                    claims@.roles,
                )
                &&& next matches RefreshState::AwaitSigned { user: u, refresh_raw: raw } && u@
                    == user@ && raw@ == refresh_raw@
            },
            Reply::Failed(failure) => gives_up(
                next,
                step,
                failure.kind.status(),
                failure.kind.message(failure.detail@),
            ),
            _ => gives_up(next, step, HttpCodeW::InternalServerError, "Unexpected reply"@),
        },
        RefreshState::AwaitSigned { user, refresh_raw } => match reply {
            Reply::Signed(Some(token)) => {
                &&& step matches Step::Ask(Request::Commit)
                &&& next matches RefreshState::AwaitCommit { bundle } && opens_session(
                    bundle,
                    user@.email,
                    user@.username,
                    token@,
                    refresh_raw@,
                )
            },
            _ => gives_up(
                next,
                step,
                HttpCodeW::InternalServerError,
                "Failed to generate access token"@,
            ),
        },
        RefreshState::AwaitCommit { bundle } => match reply {
            Reply::Done => next is Closed && step == Step::Finish(
                Ok::<AuthResponseBody, CustomError>(bundle),
            ),
            Reply::Failed(failure) => next is Closed && refuses(
                step,
                HttpCodeW::InternalServerError,
                "Txn commit error: "@ + failure.detail@,
            ),
            _ => next is Closed && refuses(
                step,
                HttpCodeW::InternalServerError,
                "Unexpected reply"@,
            ),
        },
        RefreshState::Closing { error } => next is Closed && step == Step::Finish(
            Err::<AuthResponseBody, CustomError>(error),
        ),
        RefreshState::Closed => next is Closed && refuses(
            step,
            HttpCodeW::InternalServerError,
            "Unexpected reply"@,
        ),
    }
}

fn refuse(status: HttpCodeW, message: &str) -> (r: (RefreshState, Step<AuthResponseBody>))
    ensures
        r.0 is Closed,
        refuses(r.1, status, message@),
{
    (RefreshState::Closed, Step::Finish(Err(CustomError::with(status, message))))
}

fn refuse_because(preamble: &str, detail: &str) -> (r: (RefreshState, Step<AuthResponseBody>))
    ensures
        r.0 is Closed,
        refuses(r.1, HttpCodeW::InternalServerError, preamble@ + detail@),
{
    (
        RefreshState::Closed,
        Step::Finish(
            Err(
                CustomError {
                    error_status_code: HttpCodeW::InternalServerError,
                    error_message: join(preamble, detail),
                },
            ),
        ),
    )
}

fn give_up(error: CustomError) -> (r: (RefreshState, Step<AuthResponseBody>))
    ensures
        gives_up(r.0, r.1, error.error_status_code, error.error_message@),
{
    (RefreshState::Closing { error }, Step::Ask(Request::Rollback))
}

fn give_up_because(preamble: &str, detail: &str) -> (r: (RefreshState, Step<AuthResponseBody>))
    ensures
        gives_up(r.0, r.1, HttpCodeW::InternalServerError, preamble@ + detail@),
{
    give_up(
        CustomError {
            error_status_code: HttpCodeW::InternalServerError,
            error_message: join(preamble, detail),
        },
    )
}

/// One step of a rotation.
///
/// Inside one transaction the record of the presented secret is looked up
/// among the refresh tokens that are neither revoked nor expired, revoked,
/// and followed by the record of a fresh secret; then the claims of the
/// owner are resolved and signed. Whatever fails after the transaction was
/// opened rolls it back, so that the presented secret stays good.
pub fn refresh_logic(state: RefreshState, reply: Reply) -> (r: (
    RefreshState,
    Step<AuthResponseBody>,
))
    requires
        state.wf(),
    ensures
        r.0.wf(),
        refresh_moves(state, reply, r.0, r.1),
{
    match state {
        RefreshState::Start { cookie, lifetimes } => match cookie {
            None => refuse(HttpCodeW::Unauthorized, "Missing refresh token"),
            Some(secret) => (
                RefreshState::AwaitMaterial { secret, lifetimes },
                Step::Ask(Request::Sample),
            ),
        },
        RefreshState::AwaitMaterial { secret, lifetimes } => match reply {
            Reply::Material(material) => {
                if material.in_range() {
                    (
                        RefreshState::AwaitBegin { secret, material, lifetimes },
                        Step::Ask(Request::Begin),
                    )
                } else {
                    refuse(HttpCodeW::InternalServerError, "Unexpected reply")
                }
            },
            _ => refuse(HttpCodeW::InternalServerError, "Unexpected reply"),
        },
        RefreshState::AwaitBegin { secret, material, lifetimes } => match reply {
            Reply::Done => {
                let now: i64 = material.now;
                (
                    RefreshState::AwaitOld { material, lifetimes },
                    Step::Ask(
                        Request::FindActiveRefreshToken {
                            digest: hash_refresh(secret.as_str()),
                            now,
                        },
                    ),
                )
            },
            Reply::Failed(failure) => refuse_because("Txn begin error: ", failure.detail.as_str()),
            _ => refuse(HttpCodeW::InternalServerError, "Unexpected reply"),
        },
        RefreshState::AwaitOld { material, lifetimes } => match reply {
            Reply::Token(Some(token)) => {
                let mut revoked = token;
                let user_id: u128 = revoked.user_id;
                TokensService::revoke_token(&mut revoked);
                (
                    RefreshState::AwaitRevoked { user_id, material, lifetimes },
                    Step::Ask(Request::UpdateToken(revoked)),
                )
            },
            Reply::Token(None) => give_up(
                CustomError::with(HttpCodeW::Unauthorized, "Invalid refresh token"),
            ),
            Reply::Failed(failure) => give_up(CustomError::from(failure)),
            _ => give_up(CustomError::with(HttpCodeW::InternalServerError, "Unexpected reply")),
        },
        RefreshState::AwaitRevoked { user_id, material, lifetimes } => match reply {
            Reply::TokenStored(_) => {
                let (refresh_raw, digest) = opaque_refresh_from(&material.bytes);
                let record = TokensService::create_refresh_token(
                    material.second_id,
                    user_id,
                    digest,
                    material.now,
                    lifetimes.refresh_days,
                );
                (
                    RefreshState::AwaitNew { user_id, refresh_raw, material, lifetimes },
                    Step::Ask(Request::InsertToken(record)),
                )
            },
            Reply::Failed(failure) => give_up_because(
                "Token revoke error: ",
                failure.detail.as_str(),
            ),
            _ => give_up(CustomError::with(HttpCodeW::InternalServerError, "Unexpected reply")),
        },
        RefreshState::AwaitNew { user_id, refresh_raw, material, lifetimes } => match reply {
            Reply::TokenStored(_) => (
                RefreshState::AwaitUser { refresh_raw, material, lifetimes },
                Step::Ask(Request::FindUserById(user_id)),
            ),
            Reply::Failed(failure) => give_up_because(
                "Create new refresh token error: ",
                failure.detail.as_str(),
            ),
            _ => give_up(CustomError::with(HttpCodeW::InternalServerError, "Unexpected reply")),
        },
        RefreshState::AwaitUser { refresh_raw, material, lifetimes } => match reply {
            Reply::User(Some(user)) => {
                let id: u128 = user.id;
                (
                    RefreshState::AwaitAccess { user, refresh_raw, material, lifetimes },
                    Step::Ask(Request::LoadAccess(id)),
                )
            },
            Reply::User(None) => give_up(
                CustomError::with(
                    HttpCodeW::InternalServerError,
                    "Failed to fetch user: User not found",
                ),
            ),
            Reply::Failed(failure) => give_up_because(
                "Failed to fetch user: ",
                failure.detail.as_str(),
            ),
            _ => give_up(CustomError::with(HttpCodeW::InternalServerError, "Unexpected reply")),
        },
        RefreshState::AwaitAccess { user, refresh_raw, material, lifetimes } => match reply {
            Reply::Access(tables) => {
                let request = ask_signature(&tables, &user, &material, &lifetimes);
                (RefreshState::AwaitSigned { user, refresh_raw }, Step::Ask(request))
            },
            Reply::Failed(failure) => give_up(CustomError::from(failure)),
            _ => give_up(CustomError::with(HttpCodeW::InternalServerError, "Unexpected reply")),
        },
        RefreshState::AwaitSigned { user, refresh_raw } => match reply {
            Reply::Signed(Some(access_token)) => (
                RefreshState::AwaitCommit {
                    bundle: session_bundle(&user, access_token, refresh_raw),
                },
                Step::Ask(Request::Commit),
            ),
            _ => give_up(
                CustomError::with(
                    HttpCodeW::InternalServerError,
                    "Failed to generate access token",
                ),
            ),
        },
        RefreshState::AwaitCommit { bundle } => match reply {
            Reply::Done => (RefreshState::Closed, Step::Finish(Ok(bundle))),
            Reply::Failed(failure) => refuse_because("Txn commit error: ", failure.detail.as_str()),
            _ => refuse(HttpCodeW::InternalServerError, "Unexpected reply"),
        },
        RefreshState::Closing { error } => (RefreshState::Closed, Step::Finish(Err(error))),
        RefreshState::Closed => refuse(HttpCodeW::InternalServerError, "Unexpected reply"),
    }
}

} // verus!
