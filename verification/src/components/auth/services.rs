//! The service: the use cases, run against the tables of this library.

use vstd::prelude::*;
use crate::bindings::password::bcrypt_verdict;
use crate::components::auth::functions::grants::{alike, AccessTables};
use crate::components::auth::functions::protocol::{perform, Lifetimes, Reply, Request};
use crate::components::config::services::ConfigService;
use crate::components::mail_send::services::{
    verification_body, verification_link, MailSendService, OutgoingMail,
};
use crate::components::tokens::services::{
    has_active_refresh, has_open, has_token, has_token_id, held_by_another, is_active_refresh,
    is_open, tokens_distinct, TokensService,
};
use crate::components::users::services::{
    has_email, has_user_id, has_username, taken_by_another, users_distinct, UsersService,
};
use crate::bindings::clock::LAST_INSTANT;
use crate::components::auth::functions::protocol::Step;
use crate::components::auth::functions::verify::{confirmation, VerifyState};
use crate::components::tokens::services::consumed;
use crate::components::users::services::{entry, note_verified};
use crate::entity::tokens::TokenView;
use crate::entity::users::UserView;
use crate::http_response::error_handler::{CustomError, DbFailureKind};
use crate::http_response::HttpCodeW;
use crate::bindings::email::email_address_valid;
use crate::components::auth::functions::register::{register_logic, reports, RegisterState};
use crate::components::tokens::services::issued_for;
use crate::components::users::services::created_from;
use crate::entity::users::{AuthRequestBody, RegisterResponseBody};
use crate::components::auth::functions::login::{login_logic, LoginState};
use crate::components::auth::functions::refresh::{refresh_logic, RefreshState};
use crate::bindings::jwt::token_claims;
use crate::bindings::random::uuid_text;
use crate::components::auth::functions::grants::lemma_alike_tables_resolve_alike;
use crate::components::auth::functions::login::session_claims;
use crate::components::auth::functions::token::{
    claim_fields, claims_held, expiry_of, lemma_claims_read_back, refresh_digest,
    signing_key_usable, DIGEST_CHARS, SECRET_CHARS,
};
use crate::components::tokens::services::refresh_record;
use crate::components::users::services::admission;
use crate::entity::users::AuthResponseBody;

verus! {

/// The authentication service over tables held in memory.
#[derive(Debug)]
pub struct AuthService {
    users_service: UsersService,
    tokens_service: TokensService,
    mail_send_service: MailSendService,
    access: AccessTables,
    config: ConfigService,
    outbox: Vec<OutgoingMail>,
    /// The tables as they stood when the open transaction began.
    saved: Option<(UsersService, TokensService)>,
}

/// What the service holds.
pub struct AuthView {
    pub users: Seq<UserView>,
    pub tokens: Seq<TokenView>,
    /// The messages sent so far, oldest first.
    pub outbox: Seq<OutgoingMail>,
    /// The accounts and tokens to go back to, while a transaction is open.
    pub saved: Option<(Seq<UserView>, Seq<TokenView>)>,
}

impl AuthView {
    /// No two accounts and no two tokens share what must be unique, now or
    /// in what a rollback goes back to.
    pub open spec fn wf(self) -> bool {
        &&& users_distinct(self.users)
        &&& tokens_distinct(self.tokens)
        &&& self.saved matches Some((users, tokens)) ==> users_distinct(users) && tokens_distinct(
            tokens,
        )
    }
}

/// The message is the verification message for the address and token.
pub open spec fn is_verification_mail(
    mail: OutgoingMail,
    email: Seq<char>,
    token: Seq<char>,
    config: ConfigService,
) -> bool {
    &&& mail.to@ == email
    &&& mail.from_address@ == config.email_address@
    &&& mail.subject@ == "Verify your email"@
    &&& mail.body@ == verification_body(verification_link(config.port_host@, token))
}

/// How the service answers a request, and what the request does to what
/// the service holds.
///
/// Lookups change nothing. A write either succeeds, and the tables hold
/// the row as given, or fails on a value that must be unique, and the
/// tables stay as they were. `Begin` remembers the tables, `Rollback` goes
/// back to them, `Commit` forgets them.
pub open spec fn serves(
    pre: AuthView,
    access: AccessTables,
    config: ConfigService,
    request: Request,
    post: AuthView,
    reply: Reply,
) -> bool {
    match request {
        Request::Sample => {
            &&& post == pre
            &&& reply matches Reply::Material(m) && m.wf()
        },
        Request::HashPassword(password) => {
            &&& post == pre
            &&& reply matches Reply::Hashed(hash) && (hash matches Some(h) ==> bcrypt_verdict(
                password@,
                h@,
            ) == Some(true))
        },
        Request::Sign(claims) => {
            &&& post == pre
            &&& reply matches Reply::Signed(token) && (token matches Some(t) ==> t@.len() > 0
                && token_claims(t@) == claim_fields(claims@)) && (!signing_key_usable(
                config.access_token_private_key@,
            ) ==> token is None)
        },
        Request::FindUserByEmail(email) => {
            &&& post == pre
            &&& reply matches Reply::User(found) && match found {
                Some(user) => pre.users.contains(user@) && user@.email == email@,
                None => !has_email(pre.users, email@),
            }
        },
        Request::FindUserById(id) => {
            &&& post == pre
            &&& reply matches Reply::User(found) && match found {
                Some(user) => pre.users.contains(user@) && user@.id == id,
                None => !has_user_id(pre.users, id),
            }
        },
        Request::InsertUser(user) => match reply {
            Reply::UserStored(stored) => {
                &&& stored@ == user@
                &&& post == AuthView { users: pre.users.push(user@), ..pre }
                &&& !has_user_id(pre.users, user@.id)
                &&& !has_email(pre.users, user@.email)
                &&& !has_username(pre.users, user@.username)
            },
            Reply::Failed(failure) => {
                &&& post == pre
                &&& failure.kind == DbFailureKind::Exec
                &&& failure.detail@ == "duplicate key value violates unique constraint"@
                &&& (has_user_id(pre.users, user@.id) || has_email(pre.users, user@.email)
                    || has_username(pre.users, user@.username))
            },
            _ => false,
        },
        Request::UpdateUser(user) => match reply {
            Reply::UserStored(stored) => {
                &&& stored@ == user@
                &&& exists|i: int|
                    0 <= i < pre.users.len() && (#[trigger] pre.users[i]).id == user@.id && post
                        == AuthView { users: pre.users.update(i, user@), ..pre }
            },
            Reply::Failed(_) => {
                &&& post == pre
                &&& !has_user_id(pre.users, user@.id) || taken_by_another(pre.users, user@)
            },
            _ => false,
        },
        Request::InsertToken(token) => match reply {
            Reply::TokenStored(stored) => {
                &&& stored@ == token@
                &&& post == AuthView { tokens: pre.tokens.push(token@), ..pre }
                &&& !has_token_id(pre.tokens, token@.id)
                &&& !has_token(pre.tokens, token@.token)
            },
            Reply::Failed(failure) => {
                &&& post == pre
                &&& failure.kind == DbFailureKind::Exec
                &&& failure.detail@ == "duplicate key value violates unique constraint"@
                &&& (has_token_id(pre.tokens, token@.id) || has_token(pre.tokens, token@.token))
            },
            _ => false,
        },
        Request::UpdateToken(token) => match reply {
            Reply::TokenStored(stored) => {
                &&& stored@ == token@
                &&& exists|i: int|
                    0 <= i < pre.tokens.len() && (#[trigger] pre.tokens[i]).id == token@.id
                        && post == AuthView { tokens: pre.tokens.update(i, token@), ..pre }
            },
            Reply::Failed(_) => {
                &&& post == pre
                &&& !has_token_id(pre.tokens, token@.id) || held_by_another(pre.tokens, token@)
            },
            _ => false,
        },
        Request::FindOpenToken(value) => {
            &&& post == pre
            &&& reply matches Reply::Token(found) && match found {
                Some(token) => pre.tokens.contains(token@) && is_open(token@, value@),
                None => !has_open(pre.tokens, value@),
            }
        },
        Request::FindActiveRefreshToken { digest, now } => {
            &&& post == pre
            &&& reply matches Reply::Token(found) && match found {
                Some(token) => pre.tokens.contains(token@) && is_active_refresh(
                    token@,
                    digest@,
                    now,
                ),
                None => !has_active_refresh(pre.tokens, digest@, now),
            }
        },
        Request::LoadAccess(_) => {
            &&& post == pre
            &&& reply matches Reply::Access(tables) && alike(access, tables)
        },
        Request::Begin => reply is Done && post == AuthView {
            saved: Some((pre.users, pre.tokens)),
            ..pre
        },
        Request::Commit => reply is Done && post == AuthView { saved: None, ..pre },
        Request::Rollback => reply is Done && post == match pre.saved {
            Some((users, tokens)) => AuthView { users, tokens, saved: None, ..pre },
            None => pre,
        },
        Request::SendVerification { email, token } => {
            &&& reply is Done
            &&& post.users == pre.users
            &&& post.tokens == pre.tokens
            &&& post.saved == pre.saved
            &&& post.outbox.len() == pre.outbox.len() + 1
            &&& post.outbox.drop_last() == pre.outbox
            &&& is_verification_mail(post.outbox.last(), email@, token@, config)
        },
    }
}

/// The use case failed with the given status and message.
pub open spec fn fails<T>(r: Result<T, CustomError>, status: HttpCodeW, message: Seq<char>) -> bool {
    r matches Err(e) && e.is(status, message)
}

/// What a registration does to the service.
///
/// Without data, with an address that is not well-formed or without a
/// username the request is bad, and an address that an account has already
/// is a conflict; in all these cases nothing changes. Otherwise, where the
/// registration succeeds, the service holds one more account, which waits
/// for verification, and one more token, issued to that account and sent
/// to its address. Where it fails, no token is added and nothing sent, and
/// at most the account is.
pub open spec fn register_outcome(
    pre: AuthView,
    config: ConfigService,
    payload: Option<AuthRequestBody>,
    ip: Seq<char>,
    post: AuthView,
    r: Result<RegisterResponseBody, CustomError>,
) -> bool {
    match payload {
        None => post == pre && fails(r, HttpCodeW::BadRequest, "Missing registration data"@),
        Some(request) => if !email_address_valid(request.email@) {
            post == pre && fails(r, HttpCodeW::BadRequest, "Invalid email format"@)
        } else if has_email(pre.users, request.email@) {
            post == pre && fails(r, HttpCodeW::Conflict, "User with this email already exists"@)
        } else if request.username is None {
            post == pre && fails(r, HttpCodeW::BadRequest, "Missing username"@)
        } else {
            match r {
                Ok(body) => {
                    let user = post.users.last();
                    let token = post.tokens.last();
                    &&& post.users == pre.users.push(user)
                    &&& post.tokens == pre.tokens.push(token)
                    &&& created_from(user, request, ip)
                    &&& issued_for(token, user)
                    &&& reports(body, user)
                    &&& post.outbox.len() == pre.outbox.len() + 1
                    &&& post.outbox.drop_last() == pre.outbox
                    &&& is_verification_mail(post.outbox.last(), user.email, token.token, config)
                    &&& post.saved == pre.saved
                },
                Err(e) => {
                    &&& e.error_status_code == HttpCodeW::InternalServerError
                    &&& post.tokens == pre.tokens
                    &&& post.outbox == pre.outbox
                    &&& post.saved == pre.saved
                    &&& post.users == pre.users || (post.users == pre.users.push(post.users.last())
                        && created_from(post.users.last(), request, ip))
                },
            }
        },
    }
}

/// Index of the account with the address.
pub open spec fn email_index(users: Seq<UserView>, email: Seq<char>) -> int {
    choose|i: int| 0 <= i < users.len() && (#[trigger] users[i]).email == email
}

/// Index of the refresh token that holds `digest` and can be used at
/// `now`.
pub open spec fn active_index(tokens: Seq<TokenView>, digest: Seq<char>, now: i64) -> int {
    choose|j: int| 0 <= j < tokens.len() && is_active_refresh(#[trigger] tokens[j], digest, now)
}

/// The access token is that of a session of `user` opened at `now`: it
/// carries the seven claims, which name the user, give `now` as the
/// instant of issue and the end of the access lifetime as the expiry, and
/// list the roles and permissions that the tables give the user, each in
/// ascending order.
pub open spec fn carries_session(
    token: Seq<char>,
    access: AccessTables,
    user: UserView,
    now: i64,
    lifetimes: Lifetimes,
) -> bool {
    claims_held(token_claims(token)) matches Some(claims) && {
        &&& claims.sub == uuid_text(user.id)
        &&& claims.iat == now
        &&& claims.nbf == now
        &&& claims.exp == expiry_of(now, lifetimes.access_minutes) as i64
        &&& session_claims(claims.perms, claims.roles, access, user)
    }
}

/// What a login at `now` on the account at index `i` does to the service.
///
/// An account that waits for verification is refused, and the attempt
/// noted on it. An account that may not log in, or a wrong password, is
/// refused, and nothing changes. Otherwise the login is noted on the
/// account; where it then succeeds, the service holds the record of the
/// refresh secret it hands out, not revoked, and the access token carries
/// the claims of the account; where it fails, no record is added.
pub open spec fn logged_in_at(
    pre: AuthView,
    access: AccessTables,
    lifetimes: Lifetimes,
    i: int,
    password: Seq<char>,
    ip: Seq<char>,
    now: i64,
    post: AuthView,
    r: Result<AuthResponseBody, CustomError>,
) -> bool {
    let user = pre.users[i];
    match admission(password, ip, user, now) {
        (Some(noted), true) => {
            &&& post.users == pre.users.update(i, noted)
            &&& post.outbox == pre.outbox
            &&& post.saved == pre.saved
            &&& match r {
                Ok(bundle) => {
                    let record = post.tokens.last();
                    &&& post.tokens == pre.tokens.push(record)
                    &&& record == refresh_record(
                        record.id,
                        user.id,
                        refresh_digest(bundle.refresh_token@),
                        now,
                        lifetimes.refresh_days,
                    )
                    &&& record.token.len() == DIGEST_CHARS
                    &&& bundle.refresh_token@.len() == SECRET_CHARS
                    &&& bundle.body.email@ == user.email
                    &&& bundle.body.username@ == user.username
                    &&& bundle.body.access_token@.len() > 0
                    &&& carries_session(bundle.body.access_token@, access, noted, now, lifetimes)
                },
                Err(e) => post.tokens == pre.tokens && e.error_status_code
                    == HttpCodeW::InternalServerError,
            }
        },
        (Some(noted), false) => {
            &&& post == AuthView { users: pre.users.update(i, noted), ..pre }
            &&& fails(r, HttpCodeW::Unauthorized, "User needs email verification"@)
        },
        _ => post == pre && fails(r, HttpCodeW::Unauthorized, "Invalid credentials"@),
    }
}

/// What a login does to the service.
///
/// An address that is not well-formed is a bad request and an address
/// without an account is not found; nothing changes then. Otherwise the
/// login is decided at some instant of the clock, as [`logged_in_at`] says.
pub open spec fn login_outcome(
    pre: AuthView,
    access: AccessTables,
    lifetimes: Lifetimes,
    email: Seq<char>,
    password: Seq<char>,
    ip: Seq<char>,
    post: AuthView,
    r: Result<AuthResponseBody, CustomError>,
) -> bool {
    if !email_address_valid(email) {
        post == pre && fails(r, HttpCodeW::BadRequest, "Invalid email format"@)
    } else if !has_email(pre.users, email) {
        post == pre && fails(r, HttpCodeW::NotFound, "User not found"@)
    } else {
        exists|now: i64|
            0 <= now <= LAST_INSTANT && #[trigger] logged_in_at(
                pre,
                access,
                lifetimes,
                email_index(pre.users, email),
                password,
                ip,
                now,
                post,
                r,
            )
    }
}

/// What the rotation, at `now`, of the refresh token with the secret does
/// to the service.
///
/// A secret whose record is not on file, or is revoked or expired, is
/// refused. Otherwise, where the rotation succeeds, the record of the
/// secret is revoked and the service holds one more record, that of the
/// secret it hands out, whose digest was not on file before. Where it
/// fails, nothing changes: the presented secret stays good.
pub open spec fn rotated_at(
    pre: AuthView,
    access: AccessTables,
    lifetimes: Lifetimes,
    secret: Seq<char>,
    now: i64,
    post: AuthView,
    r: Result<AuthResponseBody, CustomError>,
) -> bool {
    let digest = refresh_digest(secret);
    if !has_active_refresh(pre.tokens, digest, now) {
        post == pre && fails(r, HttpCodeW::Unauthorized, "Invalid refresh token"@)
    } else {
        let j = active_index(pre.tokens, digest, now);
        let presented = pre.tokens[j];
        match r {
            Ok(bundle) => {
                let record = post.tokens.last();
                &&& post.users == pre.users
                &&& post.outbox == pre.outbox
                &&& post.saved is None
                &&& post.tokens == pre.tokens.update(j, presented.revoked()).push(record)
                &&& record == refresh_record(
                    record.id,
                    presented.user_id,
                    refresh_digest(bundle.refresh_token@),
                    now,
                    lifetimes.refresh_days,
                )
                &&& !has_token(pre.tokens, record.token)
                &&& has_user_id(pre.users, presented.user_id)
                &&& bundle.body.email@ == pre.users[user_index(
                    pre.users,
                    presented.user_id,
                )].email
                &&& bundle.body.username@ == pre.users[user_index(
                    pre.users,
                    presented.user_id,
                )].username
                &&& bundle.body.access_token@.len() > 0
                &&& record.token.len() == DIGEST_CHARS
                &&& bundle.refresh_token@.len() == SECRET_CHARS
                &&& carries_session(
                    bundle.body.access_token@,
                    access,
                    pre.users[user_index(pre.users, presented.user_id)],
                    now,
                    lifetimes,
                )
            },
            Err(e) => post == pre && e.error_status_code == HttpCodeW::InternalServerError,
        }
    }
}

/// What a refresh does to the service: without a secret it is refused, and
/// with one the rotation happens at some instant of the clock, as
/// [`rotated_at`] says.
pub open spec fn refresh_outcome(
    pre: AuthView,
    access: AccessTables,
    lifetimes: Lifetimes,
    cookie: Option<String>,
    post: AuthView,
    r: Result<AuthResponseBody, CustomError>,
) -> bool {
    match cookie {
        None => post == pre && fails(r, HttpCodeW::Unauthorized, "Missing refresh token"@),
        Some(secret) => exists|now: i64|
            0 <= now <= LAST_INSTANT && #[trigger] rotated_at(
                pre,
                access,
                lifetimes,
                secret@,
                now,
                post,
                r,
            ),
    }
}

/// Index of the token that can be presented as `value`.
pub open spec fn open_index(tokens: Seq<TokenView>, value: Seq<char>) -> int {
    choose|j: int| 0 <= j < tokens.len() && is_open(#[trigger] tokens[j], value)
}

/// Index of the account with the id.
pub open spec fn user_index(users: Seq<UserView>, id: u128) -> int {
    choose|i: int| 0 <= i < users.len() && (#[trigger] users[i]).id == id
}

/// The account is `before`, confirmed at some instant of the clock on a
/// request from `ip`.
pub open spec fn confirmed_from(after: UserView, before: UserView, ip: Seq<char>) -> bool {
    exists|now: i64|
        0 <= now <= LAST_INSTANT && after == before.noted(
            #[trigger] entry(now, note_verified(), ip),
        ).verified()
}

/// What the confirmation of an address does to the service.
///
/// A token that is not on file, or is revoked, is forbidden; a token whose
/// owner is gone finds no user; in both cases nothing changes. Otherwise
/// the owner becomes active and verified, with a note of it on its trail,
/// and the token is used up.
pub open spec fn verify_outcome(
    pre: AuthView,
    token: Seq<char>,
    ip: Seq<char>,
    post: AuthView,
    r: Result<String, CustomError>,
) -> bool {
    if !has_open(pre.tokens, token) {
        post == pre && fails(r, HttpCodeW::Forbidden, "Token not found or None"@)
    } else {
        let j = open_index(pre.tokens, token);
        let owner = pre.tokens[j].user_id;
        if !has_user_id(pre.users, owner) {
            post == pre && fails(r, HttpCodeW::NotFound, "User not found: User not found"@)
        } else {
            let i = user_index(pre.users, owner);
            &&& r matches Ok(message) && message@ == confirmation()
            &&& post.tokens == pre.tokens.update(j, consumed(pre.tokens[j]))
            &&& post.users == pre.users.update(i, post.users[i])
            &&& confirmed_from(post.users[i], pre.users[i], ip)
            &&& post.outbox == pre.outbox
            &&& post.saved == pre.saved
        }
    }
}

impl View for AuthService {
    type V = AuthView;

    closed spec fn view(&self) -> AuthView {
        AuthView {
            users: self.users_service@,
            tokens: self.tokens_service@,
            outbox: self.outbox@,
            saved: match self.saved {
                Some((users, tokens)) => Some((users@, tokens@)),
                None => None,
            },
        }
    }
}

impl AuthService {
    /// The rows that decide what a user may do.
    pub closed spec fn access(&self) -> AccessTables {
        self.access
    }

    /// The settings of the service.
    pub closed spec fn config(&self) -> ConfigService {
        self.config
    }

    /// How long the tokens of a session live, by the settings.
    pub open spec fn lifetimes(&self) -> Lifetimes {
        Lifetimes {
            access_minutes: self.config().access_token_max_age,
            refresh_days: self.config().refresh_token_max_age,
        }
    }

    /// The tables are well-formed, the lifetimes in range, and no
    /// transaction is open.
    pub open spec fn wf(&self) -> bool {
        &&& self@.wf()
        &&& self@.saved is None
        &&& self.lifetimes().wf()
    }

    /// The service over the given tables and settings, with nothing sent
    /// yet.
    pub fn new(
        users_service: UsersService,
        tokens_service: TokensService,
        access: AccessTables,
        config: ConfigService,
    ) -> (r: AuthService)
        requires
            users_service.wf(),
            tokens_service.wf(),
            (Lifetimes {
                access_minutes: config.access_token_max_age,
                refresh_days: config.refresh_token_max_age,
            }).wf(),
        ensures
            r.wf(),
            r@.users == users_service@,
            r@.tokens == tokens_service@,
            r@.outbox.len() == 0,
            r.access() == access,
            r.config() == config,
    {
        AuthService {
            users_service,
            tokens_service,
            mail_send_service: MailSendService::new(),
            access,
            config,
            outbox: Vec::new(),
            saved: None,
        }
    }

    /// The table of accounts.
    pub fn users(&self) -> (r: &UsersService)
        ensures
            r@ == self@.users,
    {
        &self.users_service
    }

    /// The table of tokens.
    pub fn tokens(&self) -> (r: &TokensService)
        ensures
            r@ == self@.tokens,
    {
        &self.tokens_service
    }

    /// The messages sent so far.
    pub fn outbox(&self) -> (r: &Vec<OutgoingMail>)
        ensures
            r@ == self@.outbox,
    {
        &self.outbox
    }

    /// The rows that decide what a user may do, to change them.
    pub fn access_mut(&mut self) -> (r: &mut AccessTables)
        ensures
            *r == old(self).access(),
            final(self)@ == old(self)@,
            final(self).config() == old(self).config(),
            final(self).access() == *final(r),
    {
        &mut self.access
    }

    /// Registers an account for the address of the request.
    #[verifier::rlimit(60)]
    pub fn register(&mut self, payload: Option<AuthRequestBody>, ip_address: String) -> (r: Result<
        RegisterResponseBody,
        CustomError,
    >)
        requires
            old(self).wf(),
        ensures
            final(self).wf(),
            final(self).access() == old(self).access(),
            final(self).config() == old(self).config(),
            register_outcome(
                old(self)@,
                old(self).config(),
                payload,
                ip_address@,
                final(self)@,
                r,
            ),
    {
        let ghost pre = self@;
        let (state, step) = register_logic(
            RegisterState::Start { payload, ip_address },
            Reply::Started,
        );
        let request = match step {
            Step::Ask(request) => request,
            Step::Finish(r) => {
                return r;
            },
        };
        // Is the address taken?
        let reply = self.serve(request);
        let (state, step) = register_logic(state, reply);
        let request = match step {
            Step::Ask(request) => request,
            Step::Finish(r) => {
                return r;
            },
        };
        // The clock and fresh values.
        let reply = self.serve(request);
        let (state, step) = register_logic(state, reply);
        let request = match step {
            Step::Ask(request) => request,
            Step::Finish(r) => {
                return r;
            },
        };
        // The hash of the password.
        let reply = self.serve(request);
        let (state, step) = register_logic(state, reply);
        let request = match step {
            Step::Ask(request) => request,
            Step::Finish(r) => {
                return r;
            },
        };
        // The account.
        let reply = self.serve(request);
        let ghost with_user = self@;
        let ghost user_stored = reply is UserStored;
        let (state, step) = register_logic(state, reply);
        let request = match step {
            Step::Ask(request) => request,
            Step::Finish(r) => {
                return r;
            },
        };
        proof {
            if user_stored {
                assert(with_user.users.last() == with_user.users[pre.users.len() as int]);
            }
        }
        // The verification token (where its values are taken, fresh values
        // and the token once more, and then a last time), and the message;
        // or the address once more, where the account was refused.
        let reply = self.serve(request);
        proof {
            if reply is TokenStored {
                assert(self@.tokens.last() == self@.tokens[pre.tokens.len() as int]);
            }
        }
        let (state, step) = register_logic(state, reply);
        let request = match step {
            Step::Ask(request) => request,
            Step::Finish(r) => {
                return r;
            },
        };
        let reply = self.serve(request);
        proof {
            if reply is TokenStored {
                assert(self@.tokens.last() == self@.tokens[pre.tokens.len() as int]);
            }
        }
        let (state, step) = register_logic(state, reply);
        let request = match step {
            Step::Ask(request) => request,
            Step::Finish(r) => {
                return r;
            },
        };
        let reply = self.serve(request);
        proof {
            if reply is TokenStored {
                assert(self@.tokens.last() == self@.tokens[pre.tokens.len() as int]);
            }
        }
        let (state, step) = register_logic(state, reply);
        let request = match step {
            Step::Ask(request) => request,
            Step::Finish(r) => {
                return r;
            },
        };
        let reply = self.serve(request);
        proof {
            if reply is TokenStored {
                assert(self@.tokens.last() == self@.tokens[pre.tokens.len() as int]);
            }
        }
        let (state, step) = register_logic(state, reply);
        let request = match step {
            Step::Ask(request) => request,
            Step::Finish(r) => {
                return r;
            },
        };
        let reply = self.serve(request);
        proof {
            if reply is TokenStored {
                assert(self@.tokens.last() == self@.tokens[pre.tokens.len() as int]);
            }
        }
        let (state, step) = register_logic(state, reply);
        let request = match step {
            Step::Ask(request) => request,
            Step::Finish(r) => {
                return r;
            },
        };
        let reply = self.serve(request);
        let (_state, step) = register_logic(state, reply);
        match step {
            Step::Finish(r) => r,
            Step::Ask(_) => {
                assert(false);
                Err(CustomError::with(HttpCodeW::InternalServerError, "Unexpected reply"))
            },
        }
    }

    /// Logs the owner of an account in.
    #[verifier::rlimit(60)]
    pub fn login(&mut self, payload: AuthRequestBody, ip_address: String) -> (r: Result<
        AuthResponseBody,
        CustomError,
    >)
        requires
            old(self).wf(),
        ensures
            final(self).wf(),
            final(self).access() == old(self).access(),
            final(self).config() == old(self).config(),
            login_outcome(
                old(self)@,
                old(self).access(),
                old(self).lifetimes(),
                payload.email@,
                payload.password@,
                ip_address@,
                final(self)@,
                r,
            ),
    {
        let ghost pre = self@;
        let ghost access = self.access();
        let ghost email = payload.email@;
        let ghost password = payload.password@;
        let ghost ip = ip_address@;
        let lifetimes = Lifetimes {
            access_minutes: self.config.access_token_max_age,
            refresh_days: self.config.refresh_token_max_age,
        };
        let (state, step) = login_logic(
            LoginState::Start { payload, ip_address, lifetimes },
            Reply::Started,
        );
        let request = match step {
            Step::Ask(request) => request,
            Step::Finish(r) => {
                return r;
            },
        };
        // The account.
        let reply = self.serve(request);
        let ghost found = reply;
        let (state, step) = login_logic(state, reply);
        let request = match step {
            Step::Ask(request) => request,
            Step::Finish(r) => {
                return r;
            },
        };
        let ghost i = email_index(pre.users, email);
        proof {
            assert(found matches Reply::User(Some(u)) && pre.users.contains(u@));
            if let Reply::User(Some(u)) = found {
                let k = choose|k: int| 0 <= k < pre.users.len() && pre.users[k] == u@;
                assert(has_email(pre.users, email));
                if k < i {
                    assert(pre.users[k].email != pre.users[i].email);
                }
                if i < k {
                    assert(pre.users[i].email != pre.users[k].email);
                }
                assert(k == i);
            }
        }
        // The clock and fresh values.
        let reply = self.serve(request);
        let ghost sampled = reply;
        let ghost now = match sampled {
            Reply::Material(m) => m.now,
            _ => 0i64,
        };
        let (state, step) = login_logic(state, reply);
        let request = match step {
            Step::Ask(request) => request,
            Step::Finish(r) => {
                assert(logged_in_at(pre, access, lifetimes, i, password, ip, now, self@, r));
                return r;
            },
        };
        // The account, with the attempt noted.
        let ghost asked = request;
        let reply = self.serve(request);
        let ghost noted = self@;
        proof {
            assert(reply is UserStored) by {
                if reply is Failed {
                    if let Request::UpdateUser(u) = asked {
                        let k = choose|k: int|
                            0 <= k < pre.users.len() && (#[trigger] pre.users[k]).id != u@.id && (
                            pre.users[k].email == u@.email || pre.users[k].username
                                == u@.username);
                        if k < i {
                            assert(pre.users[k].email != pre.users[i].email);
                        } else {
                            assert(pre.users[i].email != pre.users[k].email);
                        }
                    }
                }
            }
            if let Request::UpdateUser(u) = asked {
                let k = choose|k: int|
                    0 <= k < pre.users.len() && (#[trigger] pre.users[k]).id == u@.id && noted
                        == (AuthView { users: pre.users.update(k, u@), ..pre });
                if k < i {
                    assert(pre.users[k].id != pre.users[i].id);
                }
                if i < k {
                    assert(pre.users[i].id != pre.users[k].id);
                }
                assert(k == i);
            }
        }
        let (state, step) = login_logic(state, reply);
        let request = match step {
            Step::Ask(request) => request,
            Step::Finish(r) => {
                assert(logged_in_at(pre, access, lifetimes, i, password, ip, now, self@, r));
                return r;
            },
        };
        // The rows that decide the claims.
        let reply = self.serve(request);
        let ghost loaded = reply;
        let (state, step) = login_logic(state, reply);
        let request = match step {
            Step::Ask(request) => request,
            Step::Finish(r) => {
                assert(logged_in_at(pre, access, lifetimes, i, password, ip, now, self@, r));
                return r;
            },
        };
        // The signature.
        let ghost signing = request;
        proof {
            if let Reply::Access(tables) = loaded {
                if let Request::Sign(claims) = signing {
                    lemma_alike_tables_resolve_alike(
                        access,
                        tables,
                        Some(noted.users[i].role),
                        noted.users[i].id,
                    );
                    lemma_claims_read_back(claims@);
                    assert(session_claims(claims@.perms, claims@.roles, access, noted.users[i]));
                }
            }
        }
        let reply = self.serve(request);
        let ghost signed = reply;
        proof {
            if let Reply::Signed(Some(t)) = signed {
                assert(carries_session(t@, access, noted.users[i], now, lifetimes));
            }
        }
        let (state, step) = login_logic(state, reply);
        let request = match step {
            Step::Ask(request) => request,
            Step::Finish(r) => {
                assert(logged_in_at(pre, access, lifetimes, i, password, ip, now, self@, r));
                return r;
            },
        };
        // The record of the refresh token; where its values are taken,
        // fresh values and the record once more, and then a last time.
        let reply = self.serve(request);
        proof {
            if reply is TokenStored {
                assert(self@.tokens.last() == self@.tokens[pre.tokens.len() as int]);
            }
        }
        let (state, step) = login_logic(state, reply);
        let request = match step {
            Step::Ask(request) => request,
            Step::Finish(r) => {
                assert(logged_in_at(pre, access, lifetimes, i, password, ip, now, self@, r));
                return r;
            },
        };
        let reply = self.serve(request);
        proof {
            if reply is TokenStored {
                assert(self@.tokens.last() == self@.tokens[pre.tokens.len() as int]);
            }
        }
        let (state, step) = login_logic(state, reply);
        let request = match step {
            Step::Ask(request) => request,
            Step::Finish(r) => {
                assert(logged_in_at(pre, access, lifetimes, i, password, ip, now, self@, r));
                return r;
            },
        };
        let reply = self.serve(request);
        proof {
            if reply is TokenStored {
                assert(self@.tokens.last() == self@.tokens[pre.tokens.len() as int]);
            }
        }
        let (state, step) = login_logic(state, reply);
        let request = match step {
            Step::Ask(request) => request,
            Step::Finish(r) => {
                assert(logged_in_at(pre, access, lifetimes, i, password, ip, now, self@, r));
                return r;
            },
        };
        let reply = self.serve(request);
        proof {
            if reply is TokenStored {
                assert(self@.tokens.last() == self@.tokens[pre.tokens.len() as int]);
            }
        }
        let (state, step) = login_logic(state, reply);
        let request = match step {
            Step::Ask(request) => request,
            Step::Finish(r) => {
                assert(logged_in_at(pre, access, lifetimes, i, password, ip, now, self@, r));
                return r;
            },
        };
        let reply = self.serve(request);
        proof {
            if reply is TokenStored {
                assert(self@.tokens.last() == self@.tokens[pre.tokens.len() as int]);
            }
        }
        let (_state, step) = login_logic(state, reply);
        match step {
            Step::Finish(r) => {
                assert(logged_in_at(pre, access, lifetimes, i, password, ip, now, self@, r));
                r
            },
            Step::Ask(_) => {
                assert(false);
                Err(CustomError::with(HttpCodeW::InternalServerError, "Unexpected reply"))
            },
        }
    }

    /// Rotates the refresh token whose secret the client presents.
    #[verifier::rlimit(60)]
    pub fn refresh(&mut self, cookie_refresh_token: Option<String>) -> (r: Result<
        AuthResponseBody,
        CustomError,
    >)
        requires
            old(self).wf(),
        ensures
            final(self).wf(),
            final(self).access() == old(self).access(),
            final(self).config() == old(self).config(),
            refresh_outcome(
                old(self)@,
                old(self).access(),
                old(self).lifetimes(),
                cookie_refresh_token,
                final(self)@,
                r,
            ),
    {
        let ghost pre = self@;
        let ghost access = self.access();
        let ghost cookie = cookie_refresh_token;
        let ghost secret = match cookie {
            Some(s) => s@,
            None => Seq::<char>::empty(),
        };
        let ghost digest = refresh_digest(secret);
        let lifetimes = Lifetimes {
            access_minutes: self.config.access_token_max_age,
            refresh_days: self.config.refresh_token_max_age,
        };
        let (state, step) = refresh_logic(
            RefreshState::Start { cookie: cookie_refresh_token, lifetimes },
            Reply::Started,
        );
        let request = match step {
            Step::Ask(request) => request,
            Step::Finish(r) => {
                return r;
            },
        };
        // The clock and fresh values.
        let reply = self.serve(request);
        let ghost sampled = reply;
        let ghost now = match sampled {
            Reply::Material(m) => m.now,
            _ => 0i64,
        };
        let (state, step) = refresh_logic(state, reply);
        let request = match step {
            Step::Ask(request) => request,
            Step::Finish(r) => {
                return r;
            },
        };
        // The transaction.
        let reply = self.serve(request);
        let ghost opened = self@;
        let (state, step) = refresh_logic(state, reply);
        let request = match step {
            Step::Ask(request) => request,
            Step::Finish(r) => {
                return r;
            },
        };
        // The record of the presented secret.
        let reply = self.serve(request);
        let ghost found = reply;
        let ghost j = active_index(pre.tokens, digest, now);
        proof {
            if let Reply::Token(Some(t)) = found {
                let k = choose|k: int| 0 <= k < pre.tokens.len() && pre.tokens[k] == t@;
                assert(has_active_refresh(pre.tokens, digest, now));
                if k < j {
                    assert(pre.tokens[k].token != pre.tokens[j].token);
                }
                if j < k {
                    assert(pre.tokens[j].token != pre.tokens[k].token);
                }
                assert(k == j);
            }
        }
        let (state, step) = refresh_logic(state, reply);
        let request = match step {
            Step::Ask(request) => request,
            Step::Finish(r) => {
                return r;
            },
        };
        // The revocation, or the rollback.
        let ghost asked = request;
        let reply = self.serve(request);
        let ghost revoked = self@;
        proof {
            if let Request::UpdateToken(t) = asked {
                assert(reply is TokenStored) by {
                    if reply is Failed {
                        let k = choose|k: int|
                            0 <= k < pre.tokens.len() && (#[trigger] pre.tokens[k]).id != t@.id
                                && pre.tokens[k].token == t@.token;
                        if k < j {
                            assert(pre.tokens[k].token != pre.tokens[j].token);
                        } else {
                            assert(pre.tokens[j].token != pre.tokens[k].token);
                        }
                    }
                }
                let k = choose|k: int|
                    0 <= k < opened.tokens.len() && (#[trigger] opened.tokens[k]).id == t@.id
                        && revoked == (AuthView { tokens: opened.tokens.update(k, t@), ..opened });
                if k < j {
                    assert(pre.tokens[k].id != pre.tokens[j].id);
                }
                if j < k {
                    assert(pre.tokens[j].id != pre.tokens[k].id);
                }
                assert(k == j);
            }
        }
        let (state, step) = refresh_logic(state, reply);
        let request = match step {
            Step::Ask(request) => request,
            Step::Finish(r) => {
                assert(rotated_at(pre, access, lifetimes, secret, now, self@, r));
                return r;
            },
        };
        // The record of the new secret.
        let ghost asked = request;
        let reply = self.serve(request);
        let ghost rotated = self@;
        proof {
            if let Request::InsertToken(t) = asked {
                if reply is TokenStored {
                    assert(rotated.tokens.last() == rotated.tokens[pre.tokens.len() as int]);
                    assert(!has_token(pre.tokens, t@.token)) by {
                        if has_token(pre.tokens, t@.token) {
                            let k = choose|k: int|
                                0 <= k < pre.tokens.len() && (#[trigger] pre.tokens[k]).token
                                    == t@.token;
                            assert(revoked.tokens[k].token == t@.token);
                            assert(has_token(revoked.tokens, t@.token));
                        }
                    }
                }
            }
        }
        let (state, step) = refresh_logic(state, reply);
        let request = match step {
            Step::Ask(request) => request,
            Step::Finish(r) => {
                assert(rotated_at(pre, access, lifetimes, secret, now, self@, r));
                return r;
            },
        };
        // The owner of the token.
        let reply = self.serve(request);
        let ghost owner = reply;
        proof {
            if let Reply::User(Some(u)) = owner {
                let i = user_index(pre.users, pre.tokens[j].user_id);
                let k = choose|k: int| 0 <= k < pre.users.len() && pre.users[k] == u@;
                if rotated.saved is Some && u@.id == pre.tokens[j].user_id {
                    assert(has_user_id(pre.users, pre.tokens[j].user_id));
                    if k < i {
                        assert(pre.users[k].id != pre.users[i].id);
                    }
                    if i < k {
                        assert(pre.users[i].id != pre.users[k].id);
                    }
                    assert(k == i);
                }
            }
        }
        let (state, step) = refresh_logic(state, reply);
        let request = match step {
            Step::Ask(request) => request,
            Step::Finish(r) => {
                assert(rotated_at(pre, access, lifetimes, secret, now, self@, r));
                return r;
            },
        };
        // The rows that decide the claims.
        let reply = self.serve(request);
        let ghost loaded = reply;
        let (state, step) = refresh_logic(state, reply);
        let request = match step {
            Step::Ask(request) => request,
            Step::Finish(r) => {
                assert(rotated_at(pre, access, lifetimes, secret, now, self@, r));
                return r;
            },
        };
        // The signature.
        let ghost signing = request;
        let ghost holder = pre.users[user_index(pre.users, pre.tokens[j].user_id)];
        proof {
            if let Reply::Access(tables) = loaded {
                if let Request::Sign(claims) = signing {
                    lemma_alike_tables_resolve_alike(access, tables, Some(holder.role), holder.id);
                    lemma_claims_read_back(claims@);
                    assert(session_claims(claims@.perms, claims@.roles, access, holder));
                }
            }
        }
        let reply = self.serve(request);
        let ghost signed = reply;
        proof {
            if let Reply::Signed(Some(t)) = signed {
                if signing is Sign {
                    assert(carries_session(t@, access, holder, now, lifetimes));
                }
            }
        }
        let (state, step) = refresh_logic(state, reply);
        let request = match step {
            Step::Ask(request) => request,
            Step::Finish(r) => {
                assert(rotated_at(pre, access, lifetimes, secret, now, self@, r));
                return r;
            },
        };
        // The commit, or the rollback.
        let reply = self.serve(request);
        let (_state, step) = refresh_logic(state, reply);
        match step {
            Step::Finish(r) => {
                assert(rotated_at(pre, access, lifetimes, secret, now, self@, r));
                r
            },
            Step::Ask(_) => {
                assert(false);
                Err(CustomError::with(HttpCodeW::InternalServerError, "Unexpected reply"))
            },
        }
    }

    /// Confirms the address that a verification token was issued for.
    #[verifier::rlimit(60)]
    pub fn verify_email(&mut self, token: String, ip_address: String) -> (r: Result<
        String,
        CustomError,
    >)
        requires
            old(self).wf(),
        ensures
            final(self).wf(),
            final(self).access() == old(self).access(),
            final(self).config() == old(self).config(),
            verify_outcome(old(self)@, token@, ip_address@, final(self)@, r),
    {
        let ghost pre = self@;
        let ghost value = token@;
        let (state, step) = TokensService::set_verified_email(
            VerifyState::Start { token, ip_address },
            Reply::Started,
        );
        let request = match step {
            Step::Ask(request) => request,
            Step::Finish(r) => {
                return r;
            },
        };
        let reply = self.serve(request);
        let ghost found = reply;
        let (state, step) = TokensService::set_verified_email(state, reply);
        let request = match step {
            Step::Ask(request) => request,
            Step::Finish(r) => {
                return r;
            },
        };
        proof {
            assert(has_open(pre.tokens, value));
            let j = open_index(pre.tokens, value);
            assert(found matches Reply::Token(Some(t)) && pre.tokens.contains(t@));
            if let Reply::Token(Some(t)) = found {
                let k = choose|k: int| 0 <= k < pre.tokens.len() && pre.tokens[k] == t@;
                assert(is_open(pre.tokens[k], value));
                if k < j {
                    assert(pre.tokens[k].token != pre.tokens[j].token);
                }
                if j < k {
                    assert(pre.tokens[j].token != pre.tokens[k].token);
                }
                assert(k == j);
            }
        }
        let reply = self.serve(request);
        let ghost owner = reply;
        let (state, step) = TokensService::set_verified_email(state, reply);
        let request = match step {
            Step::Ask(request) => request,
            Step::Finish(r) => {
                return r;
            },
        };
        proof {
            let j = open_index(pre.tokens, value);
            let i = user_index(pre.users, pre.tokens[j].user_id);
            assert(owner matches Reply::User(Some(u)) && pre.users.contains(u@));
            if let Reply::User(Some(u)) = owner {
                let k = choose|k: int| 0 <= k < pre.users.len() && pre.users[k] == u@;
                assert(has_user_id(pre.users, pre.tokens[j].user_id));
                if k < i {
                    assert(pre.users[k].id != pre.users[i].id);
                }
                if i < k {
                    assert(pre.users[i].id != pre.users[k].id);
                }
                assert(k == i);
            }
        }
        let reply = self.serve(request);
        let (state, step) = TokensService::set_verified_email(state, reply);
        let request = match step {
            Step::Ask(request) => request,
            Step::Finish(r) => {
                return r;
            },
        };
        let ghost asked = request;
        let reply = self.serve(request);
        let ghost middle = self@;
        proof {
            let j = open_index(pre.tokens, value);
            let i = user_index(pre.users, pre.tokens[j].user_id);
            assert(reply is UserStored) by {
                if reply is Failed {
                    if let Request::UpdateUser(u) = asked {
                        let k = choose|k: int|
                            0 <= k < pre.users.len() && (#[trigger] pre.users[k]).id != u@.id && (
                            pre.users[k].email == u@.email || pre.users[k].username
                                == u@.username);
                        if k < i {
                            assert(pre.users[k].email != pre.users[i].email);
                        } else {
                            assert(pre.users[i].email != pre.users[k].email);
                        }
                    }
                }
            }
            if let Request::UpdateUser(u) = asked {
                let k = choose|k: int|
                    0 <= k < pre.users.len() && (#[trigger] pre.users[k]).id == u@.id && middle
                        == (AuthView { users: pre.users.update(k, u@), ..pre });
                if k < i {
                    assert(pre.users[k].id != pre.users[i].id);
                }
                if i < k {
                    assert(pre.users[i].id != pre.users[k].id);
                }
                assert(k == i);
                assert(middle.users[i] == u@);
            }
        }
        let (state, step) = TokensService::set_verified_email(state, reply);
        let request = match step {
            Step::Ask(request) => request,
            Step::Finish(r) => {
                return r;
            },
        };
        let ghost asked = request;
        let reply = self.serve(request);
        proof {
            let j = open_index(pre.tokens, value);
            assert(reply is TokenStored) by {
                if reply is Failed {
                    if let Request::UpdateToken(t) = asked {
                        let k = choose|k: int|
                            0 <= k < pre.tokens.len() && (#[trigger] pre.tokens[k]).id != t@.id
                                && pre.tokens[k].token == t@.token;
                        if k < j {
                            assert(pre.tokens[k].token != pre.tokens[j].token);
                        } else {
                            assert(pre.tokens[j].token != pre.tokens[k].token);
                        }
                    }
                }
            }
            if let Request::UpdateToken(t) = asked {
                let k = choose|k: int|
                    0 <= k < middle.tokens.len() && (#[trigger] middle.tokens[k]).id == t@.id
                        && self@ == (AuthView { tokens: middle.tokens.update(k, t@), ..middle });
                if k < j {
                    assert(pre.tokens[k].id != pre.tokens[j].id);
                }
                if j < k {
                    assert(pre.tokens[j].id != pre.tokens[k].id);
                }
                assert(k == j);
            }
        }
        let (_state, step) = TokensService::set_verified_email(state, reply);
        match step {
            Step::Finish(r) => r,
            Step::Ask(_) => {
                assert(false);
                Err(CustomError::with(HttpCodeW::InternalServerError, "Unexpected reply"))
            },
        }
    }

    /// Answers a request of a use case.
    pub fn serve(&mut self, request: Request) -> (r: Reply)
        requires
            old(self)@.wf(),
        ensures
            final(self)@.wf(),
            final(self).access() == old(self).access(),
            final(self).config() == old(self).config(),
            serves(old(self)@, old(self).access(), old(self).config(), request, final(self)@, r),
    {
        match request {
            Request::FindUserByEmail(email) => Reply::User(
                self.users_service.find_by_email(email.as_str()),
            ),
            Request::FindUserById(id) => Reply::User(self.users_service.find_by_id(id)),
            Request::InsertUser(user) => match self.users_service.insert(user) {
                Ok(stored) => Reply::UserStored(stored),
                Err(failure) => Reply::Failed(failure),
            },
            Request::UpdateUser(user) => match self.users_service.replace(user) {
                Ok(stored) => Reply::UserStored(stored),
                Err(failure) => Reply::Failed(failure),
            },
            Request::InsertToken(token) => match self.tokens_service.insert(token) {
                Ok(stored) => Reply::TokenStored(stored),
                Err(failure) => Reply::Failed(failure),
            },
            Request::UpdateToken(token) => match self.tokens_service.replace(token) {
                Ok(stored) => Reply::TokenStored(stored),
                Err(failure) => Reply::Failed(failure),
            },
            Request::FindOpenToken(value) => Reply::Token(
                self.tokens_service.find_open(value.as_str()),
            ),
            Request::FindActiveRefreshToken { digest, now } => Reply::Token(
                self.tokens_service.find_active_refresh(digest.as_str(), now),
            ),
            Request::LoadAccess(_) => Reply::Access(self.access.duplicate()),
            Request::Begin => {
                self.saved = Some(
                    (self.users_service.duplicate(), self.tokens_service.duplicate()),
                );
                Reply::Done
            },
            Request::Commit => {
                self.saved = None;
                Reply::Done
            },
            Request::Rollback => {
                match self.saved.take() {
                    Some((users, tokens)) => {
                        self.users_service = users;
                        self.tokens_service = tokens;
                    },
                    None => {},
                }
                Reply::Done
            },
            Request::SendVerification { email, token } => {
                let mail = self.mail_send_service.compose(
                    email.as_str(),
                    token.as_str(),
                    &self.config,
                );
                let ghost before = self.outbox@;
                self.outbox.push(mail);
                assert(self.outbox@.drop_last() =~= before);
                Reply::Done
            },
            other => perform(&other, self.config.access_token_private_key.as_str()),
        }
    }
}

} // verus!
