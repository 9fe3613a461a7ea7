use vstd::prelude::*;
use crate::utils::code_set::texts;
use crate::utils::text::opt_text;

verus! {

/// A private key to sign tokens with.
#[verifier::external_type_specification]
#[verifier::external_body]
pub struct ExEncodingKey(jsonwebtoken::EncodingKey);

/// A public key to check tokens with.
#[verifier::external_type_specification]
#[verifier::external_body]
pub struct ExDecodingKey(jsonwebtoken::DecodingKey);

/// What `jsonwebtoken` reports when it declines a key or a token.
#[verifier::external_type_specification]
#[verifier::external_body]
pub struct ExJwtError(jsonwebtoken::errors::Error);

/// A JSON value.
#[verifier::external_type_specification]
#[verifier::external_body]
pub struct ExJsonValue(serde_json::Value);

/// A JSON object: fields by name.
#[verifier::external_type_specification]
#[verifier::external_body]
#[verifier::reject_recursive_types(K)]
#[verifier::reject_recursive_types(V)]
pub struct ExJsonMap<K, V>(serde_json::Map<K, V>);

/// What a field of a JSON object holds, as far as this library reads it.
pub enum JsonField {
    /// A string.
    Text(Seq<char>),
    /// An integer that fits 64 bits with a sign.
    Number(i64),
    /// A list of strings.
    Texts(Seq<Seq<char>>),
    /// Anything else.
    Other,
}

/// The fields that a JSON object holds.
pub uninterp spec fn json_fields(
    document: serde_json::Map<String, serde_json::Value>,
) -> Map<Seq<char>, JsonField>;

/// The claims that a token carries in its second part, as the fields of a
/// JSON object.
pub uninterp spec fn token_claims(token: Seq<char>) -> Map<Seq<char>, JsonField>;

/// No field at all.
pub open spec fn no_fields() -> Map<Seq<char>, JsonField> {
    Map::empty()
}

/// The string that the field `key` holds, if it is there and holds one.
pub open spec fn text_at(fields: Map<Seq<char>, JsonField>, key: Seq<char>) -> Option<Seq<char>> {
    if fields.contains_key(key) {
        match fields[key] {
            JsonField::Text(text) => Some(text),
            _ => None,
        }
    } else {
        None
    }
}

/// The integer that the field `key` holds, if it is there and holds one.
pub open spec fn number_at(fields: Map<Seq<char>, JsonField>, key: Seq<char>) -> Option<i64> {
    if fields.contains_key(key) {
        match fields[key] {
            JsonField::Number(number) => Some(number),
            _ => None,
        }
    } else {
        None
    }
}

/// The list of strings that the field `key` holds, if it is there and
/// holds one.
pub open spec fn texts_at(fields: Map<Seq<char>, JsonField>, key: Seq<char>) -> Option<
    Seq<Seq<char>>,
> {
    if fields.contains_key(key) {
        match fields[key] {
            JsonField::Texts(list) => Some(list),
            _ => None,
        }
    } else {
        None
    }
}

/// The strings of an optional list.
pub open spec fn opt_texts(list: Option<Vec<String>>) -> Option<Seq<Seq<char>>> {
    match list {
        Some(items) => Some(texts(items@)),
        None => None,
    }
}

/// Whether `jsonwebtoken::EncodingKey::from_rsa_pem` accepts the bytes as
/// the PEM text of an RSA key.
pub uninterp spec fn signing_pem_accepted(pem: Seq<u8>) -> bool;

/// Whether `jsonwebtoken::DecodingKey::from_rsa_pem` accepts the bytes as
/// the PEM text of an RSA key.
pub uninterp spec fn checking_pem_accepted(pem: Seq<u8>) -> bool;

/// [`jsonwebtoken::EncodingKey::from_rsa_pem`]: the key that the PEM text
/// holds, or the crate's error. Which of the two depends on the bytes
/// alone.
#[verifier::external_body]
pub(crate) fn rsa_signing_key(pem: &[u8]) -> (r: Result<
    jsonwebtoken::EncodingKey,
    jsonwebtoken::errors::Error,
>)
    ensures
        r is Ok == signing_pem_accepted(pem@),
{
    jsonwebtoken::EncodingKey::from_rsa_pem(pem)
}

/// [`jsonwebtoken::DecodingKey::from_rsa_pem`]: the key that the PEM text
/// holds, or the crate's error. Which of the two depends on the bytes
/// alone.
#[verifier::external_body]
pub(crate) fn rsa_checking_key(pem: &[u8]) -> (r: Result<
    jsonwebtoken::DecodingKey,
    jsonwebtoken::errors::Error,
>)
    ensures
        r is Ok == checking_pem_accepted(pem@),
{
    jsonwebtoken::DecodingKey::from_rsa_pem(pem)
}

/// [`jsonwebtoken::encode`] under RS256, with a JSON object as the claims. A
/// token is three parts joined by dots, so it is never empty, and its
/// second part is the object, so it carries the fields of the object.
#[verifier::external_body]
pub(crate) fn sign_rs256(
    claims: &serde_json::Map<String, serde_json::Value>,
    key: &jsonwebtoken::EncodingKey,
) -> (r: Result<String, jsonwebtoken::errors::Error>)
    ensures
        r matches Ok(token) ==> token@.len() > 0,
        r matches Ok(token) ==> token_claims(token@) == json_fields(*claims),
{
    let header = jsonwebtoken::Header::new(jsonwebtoken::Algorithm::RS256);
    jsonwebtoken::encode(&header, claims, key)
}

/// [`jsonwebtoken::decode`] under the default validation for RS256: the
/// claims of a token whose signature fits the key and whose expiry, read
/// against the system clock with the crate's leeway of a minute, has not
/// passed. The verdict depends on the clock, so nothing is promised of it;
/// but what comes back of an accepted token is read from its second part,
/// and so is what the token carries.
#[verifier::external_body]
pub(crate) fn open_rs256(token: &str, key: &jsonwebtoken::DecodingKey) -> (r: Result<
    serde_json::Map<String, serde_json::Value>,
    jsonwebtoken::errors::Error,
>)
    ensures
        r matches Ok(document) ==> json_fields(document) == token_claims(token@),
{
    let validation = jsonwebtoken::Validation::new(jsonwebtoken::Algorithm::RS256);
    match jsonwebtoken::decode::<serde_json::Map<String, serde_json::Value>>(
        token,
        key,
        &validation,
    ) {
        Ok(data) => Ok(data.claims),
        Err(e) => Err(e),
    }
}

/// `serde_json::Map::new`: an object without a field.
#[verifier::external_body]
pub(crate) fn json_object() -> (r: serde_json::Map<String, serde_json::Value>)
    ensures
        json_fields(r) == no_fields(),
{
    serde_json::Map::new()
}

/// `insert` of `serde_json::Map`, with a string as the value: the field
/// holds the string afterwards, whatever it held before, and the other
/// fields are as they were.
#[verifier::external_body]
pub(crate) fn json_put_text(
    document: &mut serde_json::Map<String, serde_json::Value>,
    key: &str,
    text: &str,
)
    ensures
        json_fields(*final(document)) == json_fields(*old(document)).insert(
            key@,
            JsonField::Text(text@),
        ),
{
    document.insert(key.to_owned(), serde_json::Value::from(text));
}

/// `insert` of `serde_json::Map`, with an integer as the value: the field
/// holds the integer afterwards, and the other fields are as they were.
#[verifier::external_body]
pub(crate) fn json_put_number(
    document: &mut serde_json::Map<String, serde_json::Value>,
    key: &str,
    number: i64,
)
    ensures
        json_fields(*final(document)) == json_fields(*old(document)).insert(
            key@,
            JsonField::Number(number),
        ),
{
    document.insert(key.to_owned(), serde_json::Value::from(number));
}

/// `insert` of `serde_json::Map`, with a list of strings as the value: the
/// field holds the list afterwards, and the other fields are as they were.
#[verifier::external_body]
pub(crate) fn json_put_texts(
    document: &mut serde_json::Map<String, serde_json::Value>,
    key: &str,
    list: &Vec<String>,
)
    ensures
        json_fields(*final(document)) == json_fields(*old(document)).insert(
            key@,
            JsonField::Texts(texts(list@)),
        ),
{
    document.insert(key.to_owned(), serde_json::Value::from(list.clone()));
}

/// `serde_json::from_value` on the field `key`, read as a string: the
/// string, where the field is there and holds one.
#[verifier::external_body]
pub(crate) fn json_text(document: &serde_json::Map<String, serde_json::Value>, key: &str) -> (r:
    Option<String>)
    ensures
        opt_text(r) == text_at(json_fields(*document), key@),
{
    match document.get(key) {
        Some(field) => serde_json::from_value::<String>(field.clone()).ok(),
        None => None,
    }
}

/// `serde_json::from_value` on the field `key`, read as a 64-bit integer:
/// the integer, where the field is there and holds one.
#[verifier::external_body]
pub(crate) fn json_number(document: &serde_json::Map<String, serde_json::Value>, key: &str) -> (r:
    Option<i64>)
    ensures
        r == number_at(json_fields(*document), key@),
{
    match document.get(key) {
        Some(field) => serde_json::from_value::<i64>(field.clone()).ok(),
        None => None,
    }
}

/// `serde_json::from_value` on the field `key`, read as a list of strings:
/// the list, where the field is there and holds one.
#[verifier::external_body]
pub(crate) fn json_texts(document: &serde_json::Map<String, serde_json::Value>, key: &str) -> (r:
    Option<Vec<String>>)
    ensures
        opt_texts(r) == texts_at(json_fields(*document), key@),
{
    match document.get(key) {
        Some(field) => serde_json::from_value::<Vec<String>>(field.clone()).ok(),
        None => None,
    }
}

} // verus!
