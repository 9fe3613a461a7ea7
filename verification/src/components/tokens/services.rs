//! Stored tokens: the table that holds them and the rules on issuing,
//! finding and revoking them.

use vstd::prelude::*;
use crate::bindings::clock::LAST_INSTANT;
use crate::bindings::codec::encode_url_unpadded;
use crate::bindings::random::{fresh_uuid, is_random_uuid, random_bytes_32};
use crate::components::auth::functions::token::{
    hash_refresh, opaque_refresh_from, refresh_digest, DIGEST_CHARS, SECRET_CHARS,
};
use crate::utils::helpers::now_date_time_utc;
use crate::components::auth::functions::token::refresh_secret;
use crate::components::users::services::{duplicate_key_failure, missing_record_failure};
use crate::entity::enums::token_type::TokenType;
use crate::entity::tokens::{Model, TokenView, ValueFilterBy};
use crate::entity::users::UserView;
use crate::http_response::error_handler::{CustomError, DbFailure, DbFailureKind};
use crate::http_response::HttpCodeW;
use crate::utils::text::same_text;

verus! {

/// Seconds for which a verification token can be used.
pub const VERIFICATION_SECONDS: i64 = 3600;

/// The longest life of a refresh token, in days, that fits the machine's
/// 64-bit seconds.
pub const MAX_SPAN_DAYS: i64 = 100_000_000_000_000;

/// The verification token issued at `now`: good for an hour, not revoked.
pub open spec fn verification_token(id: u128, user_id: u128, secret: Seq<char>, now: i64) -> TokenView {
    TokenView {
        id,
        user_id,
        token: secret,
        token_type: TokenType::EmailVerification,
        expires_at: (now + VERIFICATION_SECONDS) as i64,
        is_revoked: false,
        created_at: now,
        updated_at: now,
    }
}

/// The record of a refresh token issued at `now` for `ttl_days` days. It
/// holds the digest of the secret.
pub open spec fn refresh_record(
    id: u128,
    user_id: u128,
    digest: Seq<char>,
    now: i64,
    ttl_days: i64,
) -> TokenView {
    TokenView {
        id,
        user_id,
        token: digest,
        token_type: TokenType::Refresh,
        expires_at: (now + ttl_days * 86400) as i64,
        is_revoked: false,
        created_at: now,
        updated_at: now,
    }
}

/// The token is a verification token issued to `user` when it was created.
pub open spec fn issued_for(token: TokenView, user: UserView) -> bool {
    token == verification_token(token.id, user.id, token.token, user.created_at)
}

/// What storing a new token does: storage refuses the token where its id
/// or its string is taken, and stays as it is; otherwise it holds the token
/// as given, after all others, and hands it back.
pub open spec fn stored_or_refused(
    pre: Seq<TokenView>,
    token: TokenView,
    post: Seq<TokenView>,
    r: Result<Model, DbFailure>,
) -> bool {
    if has_token_id(pre, token.id) || has_token(pre, token.token) {
        &&& post == pre
        &&& r matches Err(failure) && failure.kind == DbFailureKind::Exec && failure.detail@
            == "duplicate key value violates unique constraint"@
    } else {
        &&& post == pre.push(token)
        &&& r matches Ok(stored) && stored@ == token
    }
}

/// What issuing a verification token to `user_id` does, given what was
/// drawn for it: the id, the bytes of the secret and the instant.
pub open spec fn verification_issued(
    pre: Seq<TokenView>,
    user_id: u128,
    id: u128,
    bytes: Seq<u8>,
    now: i64,
    post: Seq<TokenView>,
    r: Result<Model, DbFailure>,
) -> bool {
    stored_or_refused(pre, verification_token(id, user_id, refresh_secret(bytes), now), post, r)
}

/// What issuing a refresh token to `user_id` does, given what was drawn for
/// it: the client gets the secret made of the bytes, storage the record
/// with the digest of that secret, unless it refuses the record.
pub open spec fn refresh_issued(
    pre: Seq<TokenView>,
    user_id: u128,
    ttl_days: i64,
    id: u128,
    bytes: Seq<u8>,
    now: i64,
    post: Seq<TokenView>,
    r: Result<(String, Model), DbFailure>,
) -> bool {
    let secret = refresh_secret(bytes);
    let record = refresh_record(id, user_id, refresh_digest(secret), now, ttl_days);
    if has_token_id(pre, id) || has_token(pre, record.token) {
        &&& post == pre
        &&& r matches Err(failure) && failure.kind == DbFailureKind::Exec && failure.detail@
            == "duplicate key value violates unique constraint"@
    } else {
        &&& post == pre.push(record)
        &&& r matches Ok((handed, stored)) && handed@ == secret && stored@ == record
    }
}

/// A verification token once used: revoked for good.
pub open spec fn consumed(token: TokenView) -> TokenView {
    TokenView { is_revoked: true, token_type: TokenType::Refresh, ..token }
}

/// The token can be presented for verification: it holds `value` and is
/// not revoked.
pub open spec fn is_open(token: TokenView, value: Seq<char>) -> bool {
    token.token == value && !token.is_revoked
}

/// The token is a refresh token that holds `digest` and can be used at
/// `now`.
pub open spec fn is_active_refresh(token: TokenView, digest: Seq<char>, now: i64) -> bool {
    token.token == digest && token.token_type == TokenType::Refresh && token.valid_at(now)
}

/// Some token of the table can be presented as `value`.
pub open spec fn has_open(tokens: Seq<TokenView>, value: Seq<char>) -> bool {
    exists|i: int| 0 <= i < tokens.len() && is_open(#[trigger] tokens[i], value)
}

/// Some refresh token of the table holds `digest` and can be used at `now`.
pub open spec fn has_active_refresh(tokens: Seq<TokenView>, digest: Seq<char>, now: i64) -> bool {
    exists|i: int| 0 <= i < tokens.len() && is_active_refresh(#[trigger] tokens[i], digest, now)
}

/// `found` is what a lookup of the refresh token with `digest` finds at
/// `now`.
pub open spec fn found_active(
    tokens: Seq<TokenView>,
    digest: Seq<char>,
    now: i64,
    found: Option<Model>,
) -> bool {
    match found {
        Some(token) => tokens.contains(token@) && is_active_refresh(token@, digest, now),
        None => !has_active_refresh(tokens, digest, now),
    }
}

/// Some token of the table holds the string.
pub open spec fn has_token(tokens: Seq<TokenView>, value: Seq<char>) -> bool {
    exists|i: int| 0 <= i < tokens.len() && (#[trigger] tokens[i]).token == value
}

/// Some token of the table has the id.
pub open spec fn has_token_id(tokens: Seq<TokenView>, id: u128) -> bool {
    exists|i: int| 0 <= i < tokens.len() && (#[trigger] tokens[i]).id == id
}

/// Some token of the table belongs to the user.
pub open spec fn has_token_of(tokens: Seq<TokenView>, user_id: u128) -> bool {
    exists|i: int| 0 <= i < tokens.len() && (#[trigger] tokens[i]).user_id == user_id
}

/// No two tokens share an id or a string.
pub open spec fn tokens_distinct(tokens: Seq<TokenView>) -> bool {
    forall|i: int, j: int|
        0 <= i < j < tokens.len() ==> (#[trigger] tokens[i]).id != (#[trigger] tokens[j]).id
            && tokens[i].token != tokens[j].token
}

/// A token with another id holds the string of `token`.
pub open spec fn held_by_another(tokens: Seq<TokenView>, token: TokenView) -> bool {
    exists|k: int|
        0 <= k < tokens.len() && (#[trigger] tokens[k]).id != token.id && tokens[k].token
            == token.token
}

/// What each token of a table holds, in order.
pub open spec fn token_rows(tokens: Seq<Model>) -> Seq<TokenView> {
    Seq::new(tokens.len(), |i: int| tokens[i]@)
}

/// Revoking twice is revoking once.
pub proof fn lemma_revoke_idempotent(token: TokenView)
    ensures
        token.revoked().revoked() == token.revoked(),
        token.revoked().is_revoked,
{
}

/// The table of tokens.
#[derive(Debug)]
pub struct TokensService {
    tokens: Vec<Model>,
}

impl View for TokensService {
    type V = Seq<TokenView>;

    closed spec fn view(&self) -> Seq<TokenView> {
        token_rows(self.tokens@)
    }
}

impl TokensService {
    /// No two tokens share an id or a string.
    pub open spec fn wf(&self) -> bool {
        tokens_distinct(self@)
    }

    pub fn new() -> (r: TokensService)
        ensures
            r@ == Seq::<TokenView>::empty(),
            r.wf(),
    {
        let r = TokensService { tokens: Vec::new() };
        assert(r@ =~= Seq::<TokenView>::empty());
        r
    }

    /// Number of tokens.
    pub fn len(&self) -> (r: usize)
        ensures
            r == self@.len(),
    {
        self.tokens.len()
    }

    /// A copy of the table, row for row.
    pub fn duplicate(&self) -> (r: TokensService)
        ensures
            r@ == self@,
    {
        let mut tokens: Vec<Model> = Vec::new();
        let mut i: usize = 0;
        while i < self.tokens.len()
            invariant
                i <= self.tokens.len(),
                tokens@.len() == i,
                forall|k: int| 0 <= k < i ==> tokens@[k]@ == self.tokens@[k]@,
            decreases self.tokens.len() - i,
        {
            tokens.push(self.tokens[i].duplicate());
            i = i + 1;
        }
        let r = TokensService { tokens };
        assert(r@ =~= self@);
        r
    }

    /// The verification token made of the given random bytes.
    pub fn create_token(id: u128, user_id: u128, bytes: &[u8; 32], now: i64) -> (r: Model)
        requires
            0 <= now <= LAST_INSTANT,
        ensures
            r@ == verification_token(id, user_id, refresh_secret(bytes@), now),
            r@.token.len() == SECRET_CHARS,
    {
        Model {
            id,
            user_id,
            token: encode_url_unpadded(bytes.as_slice()),
            token_type: TokenType::EmailVerification,
            expires_at: now + VERIFICATION_SECONDS,
            is_revoked: false,
            created_at: now,
            updated_at: now,
        }
    }

    /// The record of a refresh token, from the digest of its secret.
    pub fn create_refresh_token(
        id: u128,
        user_id: u128,
        digest: String,
        now: i64,
        ttl_days: i64,
    ) -> (r: Model)
        requires
            0 <= now <= LAST_INSTANT,
            -MAX_SPAN_DAYS <= ttl_days <= MAX_SPAN_DAYS,
        ensures
            r@ == refresh_record(id, user_id, digest@, now, ttl_days),
    {
        Model {
            id,
            user_id,
            token: digest,
            token_type: TokenType::Refresh,
            expires_at: now + ttl_days * 86400,
            is_revoked: false,
            created_at: now,
            updated_at: now,
        }
    }

    /// Issues a verification token to the user and stores it.
    ///
    /// The id, the secret and the instant are drawn afresh. With them the
    /// token is stored unless its id or its string is taken: on an empty
    /// table issuing always succeeds.
    pub fn create_token_for_user(&mut self, user_id: u128) -> (r: Result<Model, DbFailure>)
        requires
            old(self).wf(),
        ensures
            final(self).wf(),
            exists|id: u128, bytes: Seq<u8>, now: i64|
                is_random_uuid(id) && bytes.len() == 32 && 0 <= now <= LAST_INSTANT
                    && #[trigger] verification_issued(
                    old(self)@,
                    user_id,
                    id,
                    bytes,
                    now,
                    final(self)@,
                    r,
                ),
            match r {
                Ok(token) => final(self)@ == old(self)@.push(token@) && token@
                    == verification_token(token.id, user_id, token@.token, token.created_at)
                    && 0 <= token.created_at <= LAST_INSTANT && token@.token.len()
                    == SECRET_CHARS,
                Err(_) => final(self)@ == old(self)@,
            },
    {
        let bytes = random_bytes_32();
        let id: u128 = fresh_uuid();
        let now: i64 = now_date_time_utc();
        let token = Self::create_token(id, user_id, &bytes, now);
        let r = self.insert(token);
        assert(verification_issued(old(self)@, user_id, id, bytes@, now, self@, r));
        r
    }

    /// Issues a refresh token to the user: the secret, for the client, and
    /// the record that was stored, which holds the digest of the secret.
    ///
    /// The id, the secret and the instant are drawn afresh. With them the
    /// record is stored unless its id or its digest is taken: on an empty
    /// table issuing always succeeds.
    pub fn create_refresh_token_for_user(&mut self, user_id: u128, ttl_days: i64) -> (r: Result<
        (String, Model),
        DbFailure,
    >)
        requires
            old(self).wf(),
            -MAX_SPAN_DAYS <= ttl_days <= MAX_SPAN_DAYS,
        ensures
            final(self).wf(),
            exists|id: u128, bytes: Seq<u8>, now: i64|
                is_random_uuid(id) && bytes.len() == 32 && 0 <= now <= LAST_INSTANT
                    && #[trigger] refresh_issued(
                    old(self)@,
                    user_id,
                    ttl_days,
                    id,
                    bytes,
                    now,
                    final(self)@,
                    r,
                ),
            match r {
                Ok((secret, record)) => final(self)@ == old(self)@.push(record@) && record@
                    == refresh_record(
                    record.id,
                    user_id,
                    refresh_digest(secret@),
                    record.created_at,
                    ttl_days,
                ) && 0 <= record.created_at <= LAST_INSTANT && secret@.len() == SECRET_CHARS
                    && record@.token.len() == DIGEST_CHARS,
                Err(_) => final(self)@ == old(self)@,
            },
    {
        let bytes = random_bytes_32();
        let (secret, digest) = opaque_refresh_from(&bytes);
        let id: u128 = fresh_uuid();
        let now: i64 = now_date_time_utc();
        let record = Self::create_refresh_token(id, user_id, digest, now, ttl_days);
        let r = match self.insert(record) {
            Ok(stored) => Ok((secret, stored)),
            Err(failure) => Err(failure),
        };
        assert(refresh_issued(old(self)@, user_id, ttl_days, id, bytes@, now, self@, r));
        r
    }

    /// The record of the refresh secret, where the secret can be used now:
    /// the lookup goes by the digest of the secret, never by the secret.
    pub fn is_token_available(&self, raw_secret: &str) -> (r: Option<Model>)
        ensures
            exists|now: i64|
                0 <= now <= LAST_INSTANT && #[trigger] found_active(
                    self@,
                    refresh_digest(raw_secret@),
                    now,
                    r,
                ),
    {
        let digest = hash_refresh(raw_secret);
        let now: i64 = now_date_time_utc();
        let found = self.find_active_refresh(digest.as_str(), now);
        assert(found_active(self@, refresh_digest(raw_secret@), now, found));
        found
    }

    /// Revokes a token. Revoking a revoked token changes nothing.
    pub fn revoke_token(model: &mut Model)
        ensures
            final(model)@ == old(model)@.revoked(),
            old(model)@.is_revoked ==> final(model)@ == old(model)@,
    {
        model.is_revoked = true;
    }

    /// Marks a verification token as used.
    pub fn consume_token(model: &mut Model)
        ensures
            final(model)@ == consumed(old(model)@),
    {
        model.is_revoked = true;
        model.token_type = TokenType::Refresh;
    }

    /// The token that can be presented as `value`, if there is one.
    pub fn find_open(&self, value: &str) -> (r: Option<Model>)
        ensures
            match r {
                Some(token) => self@.contains(token@) && is_open(token@, value@),
                None => !has_open(self@, value@),
            },
    {
        let mut i: usize = 0;
        while i < self.tokens.len()
            invariant
                i <= self.tokens.len(),
                forall|k: int| 0 <= k < i ==> !is_open(#[trigger] self@[k], value@),
            decreases self.tokens.len() - i,
        {
            assert(self@[i as int] == self.tokens@[i as int]@);
            if !self.tokens[i].is_revoked && same_text(self.tokens[i].token.as_str(), value) {
                return Some(self.tokens[i].duplicate());
            }
            i = i + 1;
        }
        None
    }

    /// The refresh token that holds `digest` and can be used at `now`, if
    /// there is one.
    pub fn find_active_refresh(&self, digest: &str, now: i64) -> (r: Option<Model>)
        ensures
            match r {
                Some(token) => self@.contains(token@) && is_active_refresh(token@, digest@, now),
                None => !has_active_refresh(self@, digest@, now),
            },
    {
        let mut i: usize = 0;
        while i < self.tokens.len()
            invariant
                i <= self.tokens.len(),
                forall|k: int| 0 <= k < i ==> !is_active_refresh(#[trigger] self@[k], digest@, now),
            decreases self.tokens.len() - i,
        {
            assert(self@[i as int] == self.tokens@[i as int]@);
            if self.tokens[i].is_refresh_token() && self.tokens[i].is_valid_at(now) && same_text(
                self.tokens[i].token.as_str(),
                digest,
            ) {
                return Some(self.tokens[i].duplicate());
            }
            i = i + 1;
        }
        None
    }

    /// Looks a token up by `user_id`: the first token of the user. Any
    /// other pairing of field and value is a bad request.
    pub fn find_by(&self, field: &str, value: ValueFilterBy) -> (r: Result<Model, CustomError>)
        ensures
            match value {
                ValueFilterBy::Uuid(user_id) if field@ == "user_id"@ => match r {
                    Ok(token) => self@.contains(token@) && token@.user_id == user_id,
                    Err(e) => !has_token_of(self@, user_id) && e.is(
                        HttpCodeW::NotFound,
                        "Token not found"@,
                    ),
                },
                _ => r matches Err(e) && e.is(HttpCodeW::BadRequest, "Invalid field or value"@),
            },
    {
        let user_id = match value {
            ValueFilterBy::Uuid(user_id) => user_id,
            ValueFilterBy::String(_) => {
                return Err(CustomError::with(HttpCodeW::BadRequest, "Invalid field or value"));
            },
        };
        if !same_text(field, "user_id") {
            return Err(CustomError::with(HttpCodeW::BadRequest, "Invalid field or value"));
        }
        match self.first_of(user_id) {
            Some(token) => Ok(token),
            None => Err(CustomError::with(HttpCodeW::NotFound, "Token not found")),
        }
    }

    /// The first token of the user, if it has one.
    fn first_of(&self, user_id: u128) -> (r: Option<Model>)
        ensures
            match r {
                Some(token) => self@.contains(token@) && token@.user_id == user_id,
                None => !has_token_of(self@, user_id),
            },
    {
        let mut i: usize = 0;
        while i < self.tokens.len()
            invariant
                i <= self.tokens.len(),
                forall|k: int| 0 <= k < i ==> (#[trigger] self@[k]).user_id != user_id,
            decreases self.tokens.len() - i,
        {
            assert(self@[i as int] == self.tokens@[i as int]@);
            if self.tokens[i].user_id == user_id {
                let token = self.tokens[i].duplicate();
                assert(self@[i as int] == token@);
                return Some(token);
            }
            i = i + 1;
        }
        None
    }

    /// Index of the token with the id, if there is one.
    fn position_of_id(&self, id: u128) -> (r: Option<usize>)
        ensures
            match r {
                Some(i) => i < self@.len() && self@[i as int].id == id,
                None => !has_token_id(self@, id),
            },
    {
        let mut i: usize = 0;
        while i < self.tokens.len()
            invariant
                i <= self.tokens.len(),
                forall|k: int| 0 <= k < i ==> (#[trigger] self@[k]).id != id,
            decreases self.tokens.len() - i,
        {
            assert(self@[i as int] == self.tokens@[i as int]@);
            if self.tokens[i].id == id {
                return Some(i);
            }
            i = i + 1;
        }
        None
    }

    /// Whether a row other than `skip` repeats the id or the string of
    /// `model`.
    fn clashes(&self, model: &Model, skip: Option<usize>) -> (r: bool)
        ensures
            r == exists|k: int|
                0 <= k < self@.len() && !(skip matches Some(s) && s == k) && ((
                #[trigger] self@[k]).id == model@.id || self@[k].token == model@.token),
    {
        let mut i: usize = 0;
        while i < self.tokens.len()
            invariant
                i <= self.tokens.len(),
                forall|k: int|
                    0 <= k < i && !(skip matches Some(s) && s == k) ==> (#[trigger] self@[k]).id
                        != model@.id && self@[k].token != model@.token,
            decreases self.tokens.len() - i,
        {
            assert(self@[i as int] == self.tokens@[i as int]@);
            let skipped = match skip {
                Some(s) => s == i,
                None => false,
            };
            if !skipped && (self.tokens[i].id == model.id || same_text(
                self.tokens[i].token.as_str(),
                model.token.as_str(),
            )) {
                return true;
            }
            i = i + 1;
        }
        false
    }

    /// Adds a token. Storage refuses one that repeats an id or a string,
    /// and then stays as it is.
    pub fn insert(&mut self, model: Model) -> (r: Result<Model, DbFailure>)
        requires
            old(self).wf(),
        ensures
            final(self).wf(),
            match r {
                Ok(stored) => {
                    &&& stored@ == model@
                    &&& final(self)@ == old(self)@.push(model@)
                    &&& !has_token_id(old(self)@, model@.id)
                    &&& !has_token(old(self)@, model@.token)
                },
                Err(failure) => {
                    &&& final(self)@ == old(self)@
                    &&& failure.kind == DbFailureKind::Exec
                    &&& failure.detail@ == "duplicate key value violates unique constraint"@
                    &&& (has_token_id(old(self)@, model@.id) || has_token(
                        old(self)@,
                        model@.token,
                    ))
                },
            },
    {
        if self.clashes(&model, None) {
            return Err(duplicate_key_failure());
        }
        let stored = model.duplicate();
        let ghost before = self@;
        self.tokens.push(model);
        assert(self@ =~= before.push(stored@));
        Ok(stored)
    }

    /// Replaces the token that has the id of `model`. Storage refuses the
    /// change where no token has the id, or where another token has the
    /// string, and then stays as it is.
    pub fn replace(&mut self, model: Model) -> (r: Result<Model, DbFailure>)
        requires
            old(self).wf(),
        ensures
            final(self).wf(),
            match r {
                Ok(stored) => {
                    &&& stored@ == model@
                    &&& exists|i: int|
                        0 <= i < old(self)@.len() && (#[trigger] old(self)@[i]).id == model@.id
                            && final(self)@ == old(self)@.update(i, model@)
                },
                Err(failure) => {
                    &&& final(self)@ == old(self)@
                    &&& !has_token_id(old(self)@, model@.id) ==> failure.kind
                        == DbFailureKind::RecordNotFound
                    &&& !has_token_id(old(self)@, model@.id) || held_by_another(
                        old(self)@,
                        model@,
                    )
                },
            },
    {
        let i = match self.position_of_id(model.id) {
            Some(i) => i,
            None => {
                return Err(missing_record_failure());
            },
        };
        if self.clashes(&model, Some(i)) {
            proof {
                let k = choose|k: int|
                    0 <= k < self@.len() && !(Some(i) matches Some(s) && s == k) && ((
                    #[trigger] self@[k]).id == model@.id || self@[k].token == model@.token);
                if k < i {
                    assert(self@[k].id != self@[i as int].id);
                } else {
                    assert(self@[i as int].id != self@[k].id);
                }
            }
            return Err(duplicate_key_failure());
        }
        let stored = model.duplicate();
        let ghost before = self@;
        self.tokens.set(i, model);
        assert(self@ =~= before.update(i as int, stored@));
        assert(before[i as int].id == stored@.id);
        assert(tokens_distinct(self@)) by {
            assert forall|a: int, b: int| 0 <= a < b < self@.len() implies (#[trigger] self@[a]).id
                != (#[trigger] self@[b]).id && self@[a].token != self@[b].token by {
                let other = if a == i { b } else { a };
                if a == i || b == i {
                    assert(before[other].id != stored@.id && before[other].token != stored@.token);
                } else {
                    assert(before[a].id != before[b].id);
                }
            }
        }
        Ok(stored)
    }
}

} // verus!
