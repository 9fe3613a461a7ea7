//! What holds of the use cases taken together.
//!
//! The first laws are stated over the outcome relations of the service,
//! which are what its functions ensure, and hold of every run that meets
//! them. The last ones are stated over the steps of the use cases alone, and
//! hold whatever host answers their requests.

use vstd::prelude::*;
use crate::bindings::email::email_address_valid;
use crate::components::auth::functions::grants::AccessTables;
use crate::components::auth::functions::protocol::Lifetimes;
use crate::bindings::clock::LAST_INSTANT;
use crate::bindings::jwt::token_claims;
use crate::bindings::random::uuid_text;
use crate::components::auth::functions::login::session_claims;
use crate::components::auth::functions::token::{claims_held, refresh_digest, token_names};
use crate::entity::enums::token_type::TokenType;
use crate::components::auth::services::{
    active_index, email_index, fails, login_outcome, logged_in_at, open_index, register_outcome,
    rotated_at, user_index, verify_outcome, AuthView,
};
use crate::components::config::services::ConfigService;
use crate::components::tokens::services::{
    has_active_refresh, has_open, is_active_refresh, is_open,
};
use crate::components::users::services::{
    addresses_valid, has_email, has_user_id, password_accepted,
};
use crate::entity::enums::user_status::UserStatus;
use crate::entity::users::{AuthRequestBody, AuthResponseBody, RegisterResponseBody};
use crate::components::auth::functions::login::{login_moves, LoginState};
use crate::components::auth::functions::protocol::{refuses, Material, Reply, Request, Step};
use crate::components::auth::functions::refresh::{refresh_moves, RefreshState};
use crate::components::auth::functions::register::{register_moves, RegisterState};
use crate::entity::tokens;
use crate::entity::users::Model;
use crate::http_response::error_handler::CustomError;
use crate::http_response::HttpCodeW;

verus! {

/// An address registers once: after a registration has succeeded, every
/// further registration for the same address is a conflict and leaves the
/// service as it is, so that no second account is created.
pub proof fn lemma_second_registration_conflicts(
    start: AuthView,
    config: ConfigService,
    first: AuthRequestBody,
    first_ip: Seq<char>,
    middle: AuthView,
    first_result: Result<RegisterResponseBody, CustomError>,
    second: AuthRequestBody,
    second_ip: Seq<char>,
    end: AuthView,
    second_result: Result<RegisterResponseBody, CustomError>,
)
    requires
        register_outcome(start, config, Some(first), first_ip, middle, first_result),
        first_result is Ok,
        second.email@ == first.email@,
        register_outcome(middle, config, Some(second), second_ip, end, second_result),
    ensures
        fails(second_result, HttpCodeW::Conflict, "User with this email already exists"@),
        end == middle,
        middle.users.len() == start.users.len() + 1,
        !has_email(start.users, first.email@),
{
    let created = middle.users.last();
    assert(middle.users[middle.users.len() - 1].email == first.email@);
    assert(has_email(middle.users, second.email@));
}

/// A registration never succeeds for an address that an account has.
pub proof fn lemma_registration_needs_a_free_address(
    start: AuthView,
    config: ConfigService,
    request: AuthRequestBody,
    ip: Seq<char>,
    end: AuthView,
    result: Result<RegisterResponseBody, CustomError>,
)
    requires
        register_outcome(start, config, Some(request), ip, end, result),
        has_email(start.users, request.email@),
    ensures
        result is Err,
        end == start,
{
}

/// An account that waits for verification cannot log in: whatever the
/// password, the login is refused as unauthorized. This holds of every
/// service whose accounts have well-formed addresses, which is every
/// service that the use cases have built from one without accounts.
pub proof fn lemma_pending_login_is_refused(
    start: AuthView,
    access: AccessTables,
    lifetimes: Lifetimes,
    email: Seq<char>,
    password: Seq<char>,
    ip: Seq<char>,
    end: AuthView,
    result: Result<AuthResponseBody, CustomError>,
)
    requires
        addresses_valid(start.users),
        has_email(start.users, email),
        start.users[email_index(start.users, email)].status == UserStatus::PendingVerification,
        login_outcome(start, access, lifetimes, email, password, ip, end, result),
    ensures
        result matches Err(e) && e.error_status_code == HttpCodeW::Unauthorized,
        end.tokens == start.tokens,
{
    let i = email_index(start.users, email);
    assert(email_address_valid(start.users[i].email));
    let now = choose|now: i64| #[trigger]
        logged_in_at(start, access, lifetimes, i, password, ip, now, end, result);
    assert(logged_in_at(start, access, lifetimes, i, password, ip, now, end, result));
}

/// A login for the address of an account that waits for verification
/// never succeeds, whatever the address and the password: it is refused as
/// unauthorized, or as a bad request where the address is not well-formed,
/// and no token is stored.
pub proof fn lemma_pending_login_never_succeeds(
    start: AuthView,
    access: AccessTables,
    lifetimes: Lifetimes,
    email: Seq<char>,
    password: Seq<char>,
    ip: Seq<char>,
    end: AuthView,
    result: Result<AuthResponseBody, CustomError>,
)
    requires
        has_email(start.users, email),
        start.users[email_index(start.users, email)].status == UserStatus::PendingVerification,
        login_outcome(start, access, lifetimes, email, password, ip, end, result),
    ensures
        result matches Err(e) && if email_address_valid(email) {
            e.error_status_code == HttpCodeW::Unauthorized
        } else {
            e.is(HttpCodeW::BadRequest, "Invalid email format"@)
        },
        end.tokens == start.tokens,
{
    if email_address_valid(email) {
        let i = email_index(start.users, email);
        let now = choose|now: i64| #[trigger]
            logged_in_at(start, access, lifetimes, i, password, ip, now, end, result);
        assert(logged_in_at(start, access, lifetimes, i, password, ip, now, end, result));
    }
}

/// An active account with the right password is never turned away: the
/// login either succeeds or fails for a reason inside the service.
///
/// Where it succeeds, neither the access token nor the refresh secret is
/// empty. The access token names the account and lists the roles and
/// permissions that the tables give it. The service holds one more token:
/// a refresh token of the account, not revoked, that holds the digest of
/// the secret handed out and not the secret, and that expires after it was
/// issued where the lifetime of refresh tokens is positive.
pub proof fn lemma_active_login_opens_session(
    start: AuthView,
    access: AccessTables,
    lifetimes: Lifetimes,
    email: Seq<char>,
    password: Seq<char>,
    ip: Seq<char>,
    end: AuthView,
    result: Result<AuthResponseBody, CustomError>,
)
    requires
        lifetimes.wf(),
        addresses_valid(start.users),
        has_email(start.users, email),
        start.users[email_index(start.users, email)].status == UserStatus::Active,
        password_accepted(password, start.users[email_index(start.users, email)]),
        login_outcome(start, access, lifetimes, email, password, ip, end, result),
    ensures
        result matches Err(e) ==> e.error_status_code == HttpCodeW::InternalServerError,
        result matches Ok(bundle) ==> {
            let account = start.users[email_index(start.users, email)];
            let record = end.tokens.last();
            &&& bundle.body.access_token@.len() > 0
            &&& bundle.refresh_token@.len() > 0
            &&& bundle.body.email@ == account.email
            &&& bundle.body.username@ == account.username
            &&& claims_held(token_claims(bundle.body.access_token@)) matches Some(claims)
                && claims.sub == uuid_text(account.id) && session_claims(
                claims.perms,
                claims.roles,
                access,
                account,
            )
            &&& end.tokens.len() == start.tokens.len() + 1
            &&& has_open(end.tokens, refresh_digest(bundle.refresh_token@))
            &&& record.user_id == account.id
            &&& record.token_type == TokenType::Refresh
            &&& !record.is_revoked
            &&& record.token == refresh_digest(bundle.refresh_token@)
            &&& record.token != bundle.refresh_token@
            &&& lifetimes.refresh_days > 0 ==> record.expires_at > record.created_at
        },
{
    let i = email_index(start.users, email);
    assert(email_address_valid(start.users[i].email));
    let now = choose|now: i64|
        0 <= now <= LAST_INSTANT && #[trigger] logged_in_at(
            start,
            access,
            lifetimes,
            i,
            password,
            ip,
            now,
            end,
            result,
        );
    assert(logged_in_at(start, access, lifetimes, i, password, ip, now, end, result));
    if let Ok(bundle) = result {
        let record = end.tokens[end.tokens.len() - 1];
        assert(is_open(record, refresh_digest(bundle.refresh_token@)));
        assert(now + lifetimes.refresh_days * 86400 <= i64::MAX);
    }
}

/// What is read from an accepted token is what was written into it: a
/// token minted for a user names that user, and that token, to whoever
/// accepts it.
pub proof fn lemma_accepted_token_names_its_user(
    token: Seq<char>,
    minted_for: u128,
    minted_as: u128,
    read_user: u128,
    read_token: u128,
)
    requires
        token_names(token, minted_for, minted_as),
        token_names(token, read_user, read_token),
    ensures
        read_user == minted_for,
        read_token == minted_as,
{
}

/// Registration keeps the addresses well-formed: it stores no account
/// whose address is not.
pub proof fn lemma_registration_keeps_addresses_valid(
    start: AuthView,
    config: ConfigService,
    payload: Option<AuthRequestBody>,
    ip: Seq<char>,
    end: AuthView,
    result: Result<RegisterResponseBody, CustomError>,
)
    requires
        addresses_valid(start.users),
        register_outcome(start, config, payload, ip, end, result),
    ensures
        addresses_valid(end.users),
{
    if end.users != start.users {
        let added = end.users.last();
        assert(end.users == start.users.push(added));
        assert forall|i: int| 0 <= i < end.users.len() implies email_address_valid(
            (#[trigger] end.users[i]).email,
        ) by {
            if i < start.users.len() {
                assert(end.users[i] == start.users[i]);
            }
        }
    }
}

/// A login keeps the addresses well-formed: it notes the attempt on the
/// account and changes nothing else of it.
pub proof fn lemma_login_keeps_addresses_valid(
    start: AuthView,
    access: AccessTables,
    lifetimes: Lifetimes,
    email: Seq<char>,
    password: Seq<char>,
    ip: Seq<char>,
    end: AuthView,
    result: Result<AuthResponseBody, CustomError>,
)
    requires
        addresses_valid(start.users),
        login_outcome(start, access, lifetimes, email, password, ip, end, result),
    ensures
        addresses_valid(end.users),
{
    if email_address_valid(email) && has_email(start.users, email) {
        let i = email_index(start.users, email);
        let now = choose|now: i64| #[trigger]
            logged_in_at(start, access, lifetimes, i, password, ip, now, end, result);
        assert(logged_in_at(start, access, lifetimes, i, password, ip, now, end, result));
        assert forall|k: int| 0 <= k < end.users.len() implies email_address_valid(
            (#[trigger] end.users[k]).email,
        ) by {
            assert(end.users[k].email == start.users[k].email);
        }
    }
}

/// A rotation keeps the accounts as they are, and a confirmation keeps the
/// addresses well-formed: it changes the state of one account, not its
/// address.
pub proof fn lemma_rotation_and_confirmation_keep_addresses_valid(
    start: AuthView,
    access: AccessTables,
    lifetimes: Lifetimes,
    secret: Seq<char>,
    instant: i64,
    rotated: AuthView,
    rotation: Result<AuthResponseBody, CustomError>,
    token: Seq<char>,
    ip: Seq<char>,
    confirmed: AuthView,
    confirmation: Result<String, CustomError>,
)
    requires
        addresses_valid(start.users),
        rotated_at(start, access, lifetimes, secret, instant, rotated, rotation),
        verify_outcome(start, token, ip, confirmed, confirmation),
    ensures
        rotated.users == start.users,
        addresses_valid(confirmed.users),
{
    if confirmed != start {
        let j = open_index(start.tokens, token);
        let i = user_index(start.users, start.tokens[j].user_id);
        assert forall|k: int| 0 <= k < confirmed.users.len() implies email_address_valid(
            (#[trigger] confirmed.users[k]).email,
        ) by {
            assert(confirmed.users[k].email == start.users[k].email);
        }
    }
}

/// A refresh secret works once. After a rotation has succeeded, the secret
/// that was presented is refused at every later instant, and the service
/// stays as it is; and the secret handed out is another one.
pub proof fn lemma_replay_is_refused(
    start: AuthView,
    access: AccessTables,
    lifetimes: Lifetimes,
    secret: Seq<char>,
    first_instant: i64,
    middle: AuthView,
    bundle: AuthResponseBody,
    second_instant: i64,
    end: AuthView,
    second_result: Result<AuthResponseBody, CustomError>,
)
    requires
        start.wf(),
        rotated_at(
            start,
            access,
            lifetimes,
            secret,
            first_instant,
            middle,
            Ok::<AuthResponseBody, CustomError>(bundle),
        ),
        rotated_at(middle, access, lifetimes, secret, second_instant, end, second_result),
    ensures
        fails(second_result, HttpCodeW::Unauthorized, "Invalid refresh token"@),
        end == middle,
        bundle.refresh_token@ != secret,
{
    let digest = refresh_digest(secret);
    assert(has_active_refresh(start.tokens, digest, first_instant));
    let j = active_index(start.tokens, digest, first_instant);
    let record = middle.tokens.last();
    assert(start.tokens[j].token == digest);
    assert(record.token != digest);
    assert forall|k: int| 0 <= k < middle.tokens.len() implies !is_active_refresh(
        #[trigger] middle.tokens[k],
        digest,
        second_instant,
    ) by {
        if k == middle.tokens.len() - 1 {
        } else if k == j {
        } else {
            assert(middle.tokens[k] == start.tokens[k]);
            if k < j {
                assert(start.tokens[k].token != start.tokens[j].token);
            } else {
                assert(start.tokens[j].token != start.tokens[k].token);
            }
        }
    }
    assert(!has_active_refresh(middle.tokens, digest, second_instant));
}

/// A verification token works once: after a confirmation has succeeded,
/// the same token is forbidden, and the service stays as it is.
pub proof fn lemma_verification_token_is_used_up(
    start: AuthView,
    token: Seq<char>,
    first_ip: Seq<char>,
    middle: AuthView,
    first_result: Result<String, CustomError>,
    second_ip: Seq<char>,
    end: AuthView,
    second_result: Result<String, CustomError>,
)
    requires
        start.wf(),
        verify_outcome(start, token, first_ip, middle, first_result),
        first_result is Ok,
        verify_outcome(middle, token, second_ip, end, second_result),
    ensures
        fails(second_result, HttpCodeW::Forbidden, "Token not found or None"@),
        end == middle,
{
    assert(has_open(start.tokens, token));
    let j = open_index(start.tokens, token);
    assert forall|k: int| 0 <= k < middle.tokens.len() implies !is_open(
        #[trigger] middle.tokens[k],
        token,
    ) by {
        if k != j {
            assert(middle.tokens[k] == start.tokens[k]);
            if k < j {
                assert(start.tokens[k].token != start.tokens[j].token);
            } else {
                assert(start.tokens[j].token != start.tokens[k].token);
            }
        }
    }
}

/// Confirming the address makes an account fit to log in: after a
/// confirmation has succeeded, the owner of the token is active and
/// verified.
pub proof fn lemma_confirmation_activates(
    start: AuthView,
    token: Seq<char>,
    ip: Seq<char>,
    end: AuthView,
    result: Result<String, CustomError>,
)
    requires
        verify_outcome(start, token, ip, end, result),
        result is Ok,
    ensures
        has_open(start.tokens, token),
        has_user_id(start.users, start.tokens[open_index(start.tokens, token)].user_id),
        ({
            let owner = start.tokens[open_index(start.tokens, token)].user_id;
            let account = end.users[user_index(start.users, owner)];
            account.status == UserStatus::Active && account.email_verified && account.can_login()
        }),
        end.tokens[open_index(start.tokens, token)].is_revoked,
{
}

/// Whatever the host: a login that finds an account waiting for
/// verification asks only for the attempt to be noted, and is refused as
/// unauthorized whatever the host answers to that, and whatever the
/// password.
pub proof fn lemma_pending_is_refused_by_every_host(
    password: String,
    ip_address: String,
    lifetimes: Lifetimes,
    user: Model,
    material: Material,
    waiting: LoginState,
    asked: Step<AuthResponseBody>,
    answer: Reply,
    end: LoginState,
    last: Step<AuthResponseBody>,
)
    requires
        user@.status == UserStatus::PendingVerification,
        !user@.email_verified,
        material.wf(),
        login_moves(
            LoginState::AwaitMaterial { password, ip_address, lifetimes, user },
            Reply::Material(material),
            waiting,
            asked,
        ),
        login_moves(waiting, answer, end, last),
    ensures
        asked matches Step::Ask(Request::UpdateUser(noted)) && noted@.status
            == UserStatus::PendingVerification && noted@.password_hash == user@.password_hash,
        waiting is AwaitAudit,
        refuses(last, HttpCodeW::Unauthorized, "User needs email verification"@),
        end is Closed,
{
}

/// Whatever the host: a registration that finds an account with the
/// address ends as a conflict, and asks for nothing to be stored.
pub proof fn lemma_taken_address_is_a_conflict_on_every_host(
    payload: AuthRequestBody,
    ip_address: String,
    found: Model,
    end: RegisterState,
    last: Step<RegisterResponseBody>,
)
    requires
        register_moves(
            RegisterState::AwaitExisting { payload, ip_address },
            Reply::User(Some(found)),
            end,
            last,
        ),
    ensures
        refuses(last, HttpCodeW::Conflict, "User with this email already exists"@),
        end is Closed,
{
}

/// Whatever the host: a rotation that finds no usable record of the
/// presented secret asks for the rollback and then ends as unauthorized; it
/// never asks for a token to be stored.
pub proof fn lemma_unknown_secret_is_refused_by_every_host(
    material: Material,
    lifetimes: Lifetimes,
    closing: RefreshState,
    asked: Step<AuthResponseBody>,
    answer: Reply,
    end: RefreshState,
    last: Step<AuthResponseBody>,
)
    requires
        refresh_moves(
            RefreshState::AwaitOld { material, lifetimes },
            Reply::Token(None),
            closing,
            asked,
        ),
        refresh_moves(closing, answer, end, last),
    ensures
        asked matches Step::Ask(Request::Rollback),
        refuses(last, HttpCodeW::Unauthorized, "Invalid refresh token"@),
        end is Closed,
{
}

/// Whatever the host: a rotation revokes the presented token before it
/// asks for the new one to be stored, and the new record holds the digest
/// of the new secret, never the secret.
pub proof fn lemma_rotation_revokes_first(
    material: Material,
    lifetimes: Lifetimes,
    presented: tokens::Model,
    revoking: RefreshState,
    first: Step<AuthResponseBody>,
    stored: tokens::Model,
    issuing: RefreshState,
    second: Step<AuthResponseBody>,
)
    requires
        refresh_moves(
            RefreshState::AwaitOld { material, lifetimes },
            Reply::Token(Some(presented)),
            revoking,
            first,
        ),
        refresh_moves(revoking, Reply::TokenStored(stored), issuing, second),
    ensures
        first matches Step::Ask(Request::UpdateToken(revoked)) && revoked@.is_revoked
            && revoked@.id == presented@.id,
        second matches Step::Ask(Request::InsertToken(record)) && !record@.is_revoked
            && record@.user_id == presented@.user_id && (issuing matches RefreshState::AwaitNew {
            refresh_raw,
            ..
        } && record@.token == refresh_digest(refresh_raw@)),
{
}

} // verus!
