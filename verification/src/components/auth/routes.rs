//! What the transport needs to know that is not transport: how a token is
//! looked into, and how the refresh secret travels.

use vstd::prelude::*;
use crate::bindings::random::{format_uuid, uuid_text};
use crate::components::auth::functions::token::{
    checking_key_usable, token_names, verify_jwt_token, TokenDetails, TokenError,
};
use crate::components::tokens::services::MAX_SPAN_DAYS;
use crate::entity::tokens::{IntrospectRequest, IntrospectResponse};
use crate::utils::text::opt_text;

verus! {

/// The cookie that carries a refresh secret: for the whole site, hidden
/// from scripts, sent over secure connections only, also across sites.
#[derive(Debug)]
pub struct RefreshCookie {
    pub name: String,
    pub value: String,
    pub path: String,
    /// Life of the cookie, in seconds.
    pub max_age: i64,
    pub http_only: bool,
    pub secure: bool,
    pub same_site_none: bool,
}

/// The cookie for a refresh secret that lives `max_age_days` days.
pub fn refresh_cookie(refresh_token: String, max_age_days: i64) -> (r: RefreshCookie)
    requires
        -MAX_SPAN_DAYS <= max_age_days <= MAX_SPAN_DAYS,
    ensures
        r.name@ == "refresh_token"@,
        r.value@ == refresh_token@,
        r.path@ == "/"@,
        r.max_age == max_age_days * 86400,
        r.http_only && r.secure && r.same_site_none,
{
    RefreshCookie {
        name: "refresh_token".to_owned(),
        value: refresh_token,
        path: "/".to_owned(),
        max_age: max_age_days * 86400,
        http_only: true,
        secure: true,
        same_site_none: true,
    }
}

/// What is shown of a token that was checked: a good one is active and
/// names its user and itself, any other is inactive and names nothing.
pub fn introspection_of(checked: Result<TokenDetails, TokenError>) -> (r: IntrospectResponse)
    ensures
        match checked {
            Ok(details) => r.active && opt_text(r.sub) == Some(uuid_text(details.user_id))
                && opt_text(r.token_uuid) == Some(uuid_text(details.token_uuid)),
            Err(_) => !r.active && r.sub is None && r.token_uuid is None,
        },
{
    match checked {
        Ok(details) => IntrospectResponse {
            active: true,
            sub: Some(format_uuid(details.user_id)),
            token_uuid: Some(format_uuid(details.token_uuid)),
        },
        Err(_) => IntrospectResponse { active: false, sub: None, token_uuid: None },
    }
}

/// Looks into the access token of the request: checks it against the
/// public key and the clock, and against nothing else. A token that does
/// not pass is not an error but inactive. An active answer shows, as text,
/// the user and the token that the claims of that very token name.
pub fn introspect(public_key: String, payload: &IntrospectRequest) -> (r: IntrospectResponse)
    ensures
        r.active == r.sub is Some,
        r.active == r.token_uuid is Some,
        !checking_key_usable(public_key@) ==> !r.active,
        r.active ==> exists|user_id: u128, token_uuid: u128|
            #[trigger] token_names(payload.token@, user_id, token_uuid) && opt_text(r.sub) == Some(
                uuid_text(user_id),
            ) && opt_text(r.token_uuid) == Some(uuid_text(token_uuid)),
{
    introspection_of(verify_jwt_token(public_key, payload.token.as_str()))
}

} // verus!
