//! Access tokens, signed and self-contained, and opaque refresh secrets.

use vstd::prelude::*;
use vstd::utf8::{encode_utf8, valid_utf8};
use crate::bindings::chars::is_utf8;
use crate::bindings::clock::{utc_now_seconds, LAST_INSTANT};
use crate::bindings::codec::{
    base64_standard, base64_standard_decoded, base64_url_unpadded, decode_standard,
    encode_standard, encode_url_unpadded, sha256, sha256_digest,
};
use crate::bindings::jwt::{
    checking_pem_accepted, json_fields, json_number, json_object, json_put_number, json_put_text,
    json_put_texts, json_text, json_texts, no_fields, number_at, open_rs256, rsa_checking_key,
    rsa_signing_key, sign_rs256, signing_pem_accepted, text_at, texts_at, token_claims, JsonField,
};
use crate::bindings::random::{
    format_uuid, fresh_uuid, is_random_uuid, parse_uuid, random_bytes_32, uuid_parsed, uuid_text,
};
use crate::components::auth::functions::grants::{
    effective_permissions, effective_roles, resolve, AccessTables,
};
use crate::entity::enums::user_role::UserRole;
use crate::entity::tokens::MAX_SPAN_MINUTES;
use crate::utils::code_set::{ascending, texts};

verus! {

/// Why a token was not minted or not accepted.
#[derive(Debug, Clone, Copy, PartialEq, Eq, Structural)]
pub enum TokenError {
    /// The signing key is malformed, or the signer declined.
    Signing,
    /// The token is malformed, badly signed or expired, or the key to
    /// check it with is malformed.
    InvalidToken,
}

/// What a minted or an accepted access token is about.
#[derive(Debug)]
pub struct TokenDetails {
    pub user_id: u128,
    pub token_uuid: u128,
    /// Expiry, in seconds since the epoch; set by minting only.
    pub expires_in: Option<i64>,
    /// The signed token; set by minting only.
    pub token: Option<String>,
}

/// The claims an access token carries.
#[derive(Debug)]
pub struct TokenClaims {
    pub sub: String,
    pub token_uuid: String,
    pub perms: Vec<String>,
    pub roles: Vec<String>,
    pub exp: i64,
    pub iat: i64,
    pub nbf: i64,
}

/// What the claims of a token say.
pub struct ClaimsView {
    pub sub: Seq<char>,
    pub token_uuid: Seq<char>,
    pub perms: Seq<Seq<char>>,
    pub roles: Seq<Seq<char>>,
    pub exp: i64,
    pub iat: i64,
    pub nbf: i64,
}

impl View for TokenClaims {
    type V = ClaimsView;

    open spec fn view(&self) -> ClaimsView {
        ClaimsView {
            sub: self.sub@,
            token_uuid: self.token_uuid@,
            perms: texts(self.perms@),
            roles: texts(self.roles@),
            exp: self.exp,
            iat: self.iat,
            nbf: self.nbf,
        }
    }
}

/// The instant at which a token issued at `now` for `ttl` minutes expires.
pub open spec fn expiry_of(now: i64, ttl: i64) -> int {
    now + ttl * 60
}

/// The claims of the token `token_uuid`, issued to `user_id` at `now` for
/// `ttl` minutes.
pub open spec fn claims_for(
    user_id: u128,
    token_uuid: u128,
    now: i64,
    ttl: i64,
    perms: Seq<Seq<char>>,
    roles: Seq<Seq<char>>,
) -> ClaimsView {
    ClaimsView {
        sub: uuid_text(user_id),
        token_uuid: uuid_text(token_uuid),
        perms,
        roles,
        exp: expiry_of(now, ttl) as i64,
        iat: now,
        nbf: now,
    }
}

/// The user and the token that claims name, where both ids are readable.
pub open spec fn subject_of(claims: ClaimsView) -> Option<(u128, u128)> {
    match (uuid_parsed(claims.sub), uuid_parsed(claims.token_uuid)) {
        (Some(user_id), Some(token_uuid)) => Some((user_id, token_uuid)),
        _ => None,
    }
}

/// What is stored of a refresh secret: the SHA-256 digest of its bytes,
/// in standard base64.
pub open spec fn refresh_digest(raw: Seq<char>) -> Seq<char> {
    base64_standard(sha256(encode_utf8(raw)))
}

/// The refresh secret made of 32 random bytes: their URL-safe base64.
pub open spec fn refresh_secret(bytes: Seq<u8>) -> Seq<char> {
    base64_url_unpadded(bytes)
}

/// Characters of a refresh secret: the unpadded base64 of 32 bytes.
pub const SECRET_CHARS: usize = 43;

/// Characters of the digest of a refresh secret: the padded base64 of the
/// 32 bytes of a SHA-256 digest.
pub const DIGEST_CHARS: usize = 44;

/// The token carries claims that name the user and the token: its seven
/// claims are there, each of its kind, and the two ids read as given.
pub open spec fn token_names(token: Seq<char>, user_id: u128, token_uuid: u128) -> bool {
    claims_held(token_claims(token)) matches Some(claims) && subject_of(claims) == Some(
        (user_id, token_uuid),
    )
}

/// The token is one minted at `now`: it carries exactly the claims of
/// [`claims_for`], and expires `ttl` minutes later.
pub open spec fn minted_at(
    details: TokenDetails,
    user_id: u128,
    ttl: i64,
    perms: Seq<Seq<char>>,
    roles: Seq<Seq<char>>,
    now: i64,
) -> bool {
    &&& details.user_id == user_id
    &&& details.expires_in == Some(expiry_of(now, ttl) as i64)
    &&& details.token matches Some(token) && token@.len() > 0 && token_claims(token@)
        == claim_fields(claims_for(user_id, details.token_uuid, now, ttl, perms, roles))
}

/// The roles and permissions of a user, each sorted and without
/// repetition, as the claims of its next access token carry them.
pub fn compute_roles_and_permissions(
    tables: &AccessTables,
    base_role: Option<UserRole>,
    user_id: u128,
) -> (r: (Vec<String>, Vec<String>))
    ensures
        ascending(texts(r.0@)),
        texts(r.0@).to_set() == effective_roles(*tables, base_role, user_id),
        ascending(texts(r.1@)),
        texts(r.1@).to_set() == effective_permissions(*tables, base_role, user_id),
{
    resolve(tables, base_role, user_id)
}

/// The claims of a token issued at `now`. They name the user and the token
/// so that [`details_from_claims`] reads both back.
pub fn build_claims(
    user_id: u128,
    token_uuid: u128,
    now: i64,
    ttl: i64,
    perms: Vec<String>,
    roles: Vec<String>,
) -> (r: TokenClaims)
    requires
        0 <= now <= LAST_INSTANT,
        -MAX_SPAN_MINUTES <= ttl <= MAX_SPAN_MINUTES,
    ensures
        r@ == claims_for(user_id, token_uuid, now, ttl, texts(perms@), texts(roles@)),
        r@.exp == expiry_of(now, ttl),
        subject_of(r@) == Some((user_id, token_uuid)),
{
    let exp: i64 = now + ttl * 60;
    TokenClaims {
        sub: format_uuid(user_id),
        token_uuid: format_uuid(token_uuid),
        perms,
        roles,
        exp,
        iat: now,
        nbf: now,
    }
}

/// The user and the token that claims name.
pub fn details_from_claims(claims: &TokenClaims) -> (r: Result<TokenDetails, TokenError>)
    ensures
        match subject_of(claims@) {
            Some((user_id, token_uuid)) => r matches Ok(details) && details.user_id == user_id
                && details.token_uuid == token_uuid && details.expires_in is None
                && details.token is None,
            None => r == Err::<TokenDetails, TokenError>(TokenError::InvalidToken),
        },
{
    let user_id = parse_uuid(claims.sub.as_str());
    let token_uuid = parse_uuid(claims.token_uuid.as_str());
    match (user_id, token_uuid) {
        (Some(user_id), Some(token_uuid)) => Ok(
            TokenDetails { user_id, token_uuid, expires_in: None, token: None },
        ),
        _ => Err(TokenError::InvalidToken),
    }
}

/// The fields of the JSON object that carries claims: subject and token
/// as strings, permissions and roles as lists, the three instants as
/// numbers.
pub open spec fn claim_fields(claims: ClaimsView) -> Map<Seq<char>, JsonField> {
    no_fields().insert("sub"@, JsonField::Text(claims.sub)).insert(
        "token_uuid"@,
        JsonField::Text(claims.token_uuid),
    ).insert("perms"@, JsonField::Texts(claims.perms)).insert(
        "roles"@,
        JsonField::Texts(claims.roles),
    ).insert("exp"@, JsonField::Number(claims.exp)).insert(
        "iat"@,
        JsonField::Number(claims.iat),
    ).insert("nbf"@, JsonField::Number(claims.nbf))
}

/// The claims that the fields of a JSON object hold: all seven must be
/// there, each of its kind; fields besides them do not count.
pub open spec fn claims_held(fields: Map<Seq<char>, JsonField>) -> Option<ClaimsView> {
    match (
        text_at(fields, "sub"@),
        text_at(fields, "token_uuid"@),
        texts_at(fields, "perms"@),
        texts_at(fields, "roles"@),
        number_at(fields, "exp"@),
        number_at(fields, "iat"@),
        number_at(fields, "nbf"@),
    ) {
        (Some(sub), Some(token_uuid), Some(perms), Some(roles), Some(exp), Some(iat), Some(nbf)) => {
            Some(ClaimsView { sub, token_uuid, perms, roles, exp, iat, nbf })
        },
        _ => None,
    }
}

/// The names of the seven claims differ from one another.
pub proof fn lemma_claim_names_differ()
    ensures
        "sub"@ != "token_uuid"@,
        "sub"@ != "perms"@,
        "sub"@ != "roles"@,
        "sub"@ != "exp"@,
        "sub"@ != "iat"@,
        "sub"@ != "nbf"@,
        "token_uuid"@ != "perms"@,
        "token_uuid"@ != "roles"@,
        "token_uuid"@ != "exp"@,
        "token_uuid"@ != "iat"@,
        "token_uuid"@ != "nbf"@,
        "perms"@ != "roles"@,
        "perms"@ != "exp"@,
        "perms"@ != "iat"@,
        "perms"@ != "nbf"@,
        "roles"@ != "exp"@,
        "roles"@ != "iat"@,
        "roles"@ != "nbf"@,
        "exp"@ != "iat"@,
        "exp"@ != "nbf"@,
        "iat"@ != "nbf"@,
{
    reveal_strlit("sub");
    reveal_strlit("token_uuid");
    reveal_strlit("perms");
    reveal_strlit("roles");
    reveal_strlit("exp");
    reveal_strlit("iat");
    reveal_strlit("nbf");
    assert("sub"@[0] == 's');
    assert("token_uuid"@[0] == 't');
    assert("perms"@[0] == 'p');
    assert("roles"@[0] == 'r');
    assert("exp"@[0] == 'e');
    assert("iat"@[0] == 'i');
    assert("nbf"@[0] == 'n');
}

/// What is written into the object that carries claims is what is read
/// from it.
pub proof fn lemma_claims_read_back(claims: ClaimsView)
    ensures
        claims_held(claim_fields(claims)) == Some(claims),
{
    lemma_claim_names_differ();
}

/// The JSON object of the claims: it holds the seven claims and nothing
/// else, and reads back as the claims.
fn claims_to_json(claims: &TokenClaims) -> (r: serde_json::Map<String, serde_json::Value>)
    ensures
        json_fields(r) == claim_fields(claims@),
        claims_held(json_fields(r)) == Some(claims@),
{
    let mut document = json_object();
    json_put_text(&mut document, "sub", claims.sub.as_str());
    json_put_text(&mut document, "token_uuid", claims.token_uuid.as_str());
    json_put_texts(&mut document, "perms", &claims.perms);
    json_put_texts(&mut document, "roles", &claims.roles);
    json_put_number(&mut document, "exp", claims.exp);
    json_put_number(&mut document, "iat", claims.iat);
    json_put_number(&mut document, "nbf", claims.nbf);
    proof {
        lemma_claims_read_back(claims@);
    }
    document
}

/// The claims that a JSON object holds; nothing where one of them is
/// missing or of another kind.
fn claims_from_json(document: &serde_json::Map<String, serde_json::Value>) -> (r: Option<
    TokenClaims,
>)
    ensures
        match r {
            Some(claims) => claims_held(json_fields(*document)) == Some(claims@),
            None => claims_held(json_fields(*document)) is None,
        },
{
    let sub = json_text(document, "sub")?;
    let token_uuid = json_text(document, "token_uuid")?;
    let perms = json_texts(document, "perms")?;
    let roles = json_texts(document, "roles")?;
    let exp = json_number(document, "exp")?;
    let iat = json_number(document, "iat")?;
    let nbf = json_number(document, "nbf")?;
    Some(TokenClaims { sub, token_uuid, perms, roles, exp, iat, nbf })
}

/// A key is usable where it is the standard base64 of well-formed UTF-8:
/// the PEM text of the key.
pub open spec fn key_text_readable(key: Seq<char>) -> bool {
    match base64_standard_decoded(key) {
        Some(bytes) => valid_utf8(bytes),
        None => false,
    }
}

/// A key to sign with is usable where it is readable and its text is
/// accepted as the PEM of an RSA key.
pub open spec fn signing_key_usable(key: Seq<char>) -> bool {
    match base64_standard_decoded(key) {
        Some(bytes) => valid_utf8(bytes) && signing_pem_accepted(bytes),
        None => false,
    }
}

/// A key to check with is usable where it is readable and its text is
/// accepted as the PEM of an RSA key.
pub open spec fn checking_key_usable(key: Seq<char>) -> bool {
    match base64_standard_decoded(key) {
        Some(bytes) => valid_utf8(bytes) && checking_pem_accepted(bytes),
        None => false,
    }
}

/// The PEM bytes of a key kept in base64.
fn key_bytes(key: &str) -> (r: Option<Vec<u8>>)
    ensures
        r is Some == key_text_readable(key@),
        r matches Some(bytes) ==> base64_standard_decoded(key@) == Some(bytes@),
{
    match decode_standard(key) {
        Some(bytes) => {
            if is_utf8(bytes.as_slice()) {
                Some(bytes)
            } else {
                None
            }
        },
        None => None,
    }
}

/// Signs the claims with the private key, kept as the base64 of its PEM
/// text.
///
/// Fails where the key is not usable (not base64, not text, not the PEM
/// of an RSA key) or the signer declines it; a token that comes back is
/// never empty and carries the claims.
pub fn sign_claims(claims: &TokenClaims, private_key: &str) -> (r: Result<String, TokenError>)
    ensures
        !signing_key_usable(private_key@) ==> r is Err,
        r matches Ok(token) ==> token@.len() > 0 && token_claims(token@) == claim_fields(claims@),
        r matches Err(e) ==> e == TokenError::Signing,
{
    let pem = match key_bytes(private_key) {
        Some(bytes) => bytes,
        None => {
            return Err(TokenError::Signing);
        },
    };
    let key = match rsa_signing_key(pem.as_slice()) {
        Ok(key) => key,
        Err(_) => {
            return Err(TokenError::Signing);
        },
    };
    let document = claims_to_json(claims);
    match sign_rs256(&document, &key) {
        Ok(token) => Ok(token),
        Err(_) => Err(TokenError::Signing),
    }
}

/// The details of a token issued at `now`, once the signer has answered.
pub fn details_of_signed(
    user_id: u128,
    token_uuid: u128,
    now: i64,
    ttl: i64,
    signed: Result<String, TokenError>,
) -> (r: Result<TokenDetails, TokenError>)
    requires
        0 <= now <= LAST_INSTANT,
        -MAX_SPAN_MINUTES <= ttl <= MAX_SPAN_MINUTES,
    ensures
        match signed {
            Ok(token) => r matches Ok(details) && details.user_id == user_id && details.token_uuid
                == token_uuid && details.expires_in == Some(expiry_of(now, ttl) as i64)
                && details.token == Some(token),
            Err(e) => r == Err::<TokenDetails, TokenError>(e),
        },
{
    match signed {
        Ok(token) => {
            let exp: i64 = now + ttl * 60;
            Ok(TokenDetails { user_id, token_uuid, expires_in: Some(exp), token: Some(token) })
        },
        Err(e) => Err(e),
    }
}

/// Mints an access token for `user_id`, valid for `ttl` minutes from now.
///
/// The token gets a fresh random id. It carries the claims of
/// [`claims_for`] at the instant of the call, and so names the user: what
/// [`verify_jwt_token`] reads from a token that it accepts is what was
/// written here.
pub fn generate_jwt_token(
    user_id: u128,
    ttl: i64,
    private_key: String,
    perms: Vec<String>,
    roles: Vec<String>,
) -> (r: Result<TokenDetails, TokenError>)
    requires
        -MAX_SPAN_MINUTES <= ttl <= MAX_SPAN_MINUTES,
    ensures
        !signing_key_usable(private_key@) ==> r is Err,
        r matches Err(e) ==> e == TokenError::Signing,
        r matches Ok(details) ==> {
            &&& is_random_uuid(details.token_uuid)
            &&& exists|now: i64|
                0 <= now <= LAST_INSTANT && #[trigger] minted_at(
                    details,
                    user_id,
                    ttl,
                    texts(perms@),
                    texts(roles@),
                    now,
                )
            &&& details.token matches Some(token) && token_names(
                token@,
                user_id,
                details.token_uuid,
            )
        },
{
    let now: i64 = utc_now_seconds();
    let token_uuid: u128 = fresh_uuid();
    let ghost perms_held = texts(perms@);
    let ghost roles_held = texts(roles@);
    let claims = build_claims(user_id, token_uuid, now, ttl, perms, roles);
    let signed = sign_claims(&claims, private_key.as_str());
    let r = details_of_signed(user_id, token_uuid, now, ttl, signed);
    proof {
        let ghost outcome = r;
        if let Ok(details) = outcome {
            lemma_claims_read_back(claims@);
            assert(minted_at(details, user_id, ttl, perms_held, roles_held, now));
        }
    }
    r
}

/// Checks an access token against the public key, kept as the base64 of
/// its PEM text, and reads whom and which token it names.
///
/// Nothing but the token, the key and the clock is consulted. Whether the
/// token is accepted is for the signature check and the clock to say; the
/// ids of an accepted token are those that its claims name.
pub fn verify_jwt_token(public_key: String, token: &str) -> (r: Result<TokenDetails, TokenError>)
    ensures
        !checking_key_usable(public_key@) ==> r is Err,
        r matches Err(e) ==> e == TokenError::InvalidToken,
        r matches Ok(details) ==> details.token is None && details.expires_in is None
            && token_names(token@, details.user_id, details.token_uuid),
{
    let pem = match key_bytes(public_key.as_str()) {
        Some(bytes) => bytes,
        None => {
            return Err(TokenError::InvalidToken);
        },
    };
    let key = match rsa_checking_key(pem.as_slice()) {
        Ok(key) => key,
        Err(_) => {
            return Err(TokenError::InvalidToken);
        },
    };
    let document = match open_rs256(token, &key) {
        Ok(document) => document,
        Err(_) => {
            return Err(TokenError::InvalidToken);
        },
    };
    details_of_opened(&document)
}

/// Whom and which token the claims of an accepted token name: every one
/// of the seven claims must be there and of its kind, and the two ids must
/// be readable; anything else is an invalid token.
pub fn details_of_opened(document: &serde_json::Map<String, serde_json::Value>) -> (r: Result<
    TokenDetails,
    TokenError,
>)
    ensures
        match claims_held(json_fields(*document)) {
            Some(claims) => match subject_of(claims) {
                Some((user_id, token_uuid)) => r matches Ok(details) && details.user_id
                    == user_id && details.token_uuid == token_uuid && details.expires_in is None
                    && details.token is None,
                None => r == Err::<TokenDetails, TokenError>(TokenError::InvalidToken),
            },
            None => r == Err::<TokenDetails, TokenError>(TokenError::InvalidToken),
        },
{
    match claims_from_json(document) {
        Some(claims) => details_from_claims(&claims),
        None => Err(TokenError::InvalidToken),
    }
}

/// What storage keeps of a refresh secret.
pub fn hash_refresh(raw: &str) -> (r: String)
    ensures
        r@ == refresh_digest(raw@),
        r@.len() == DIGEST_CHARS,
{
    let digest = sha256_digest(raw.as_bytes());
    encode_standard(digest.as_slice())
}

/// The refresh secret made of the given random bytes, and its digest.
pub fn opaque_refresh_from(bytes: &[u8; 32]) -> (r: (String, String))
    ensures
        r.0@ == refresh_secret(bytes@),
        r.1@ == refresh_digest(r.0@),
        r.0@.len() == SECRET_CHARS,
        r.1@.len() == DIGEST_CHARS,
{
    let raw = encode_url_unpadded(bytes.as_slice());
    let hash = hash_refresh(raw.as_str());
    (raw, hash)
}

/// A new refresh secret, for the client, and its digest, for storage.
pub fn generate_opaque_refresh() -> (r: (String, String))
    ensures
        r.1@ == refresh_digest(r.0@),
        exists|bytes: Seq<u8>| bytes.len() == 32 && r.0@ == refresh_secret(bytes),
        r.0@.len() == SECRET_CHARS,
        r.1@.len() == DIGEST_CHARS,
{
    let bytes = random_bytes_32();
    let pair = opaque_refresh_from(&bytes);
    assert(bytes@.len() == 32 && pair.0@ == refresh_secret(bytes@));
    pair
}

} // verus!
