use vstd::prelude::*;
use rand::RngCore;

verus! {

/// `fill_bytes` of `rand::thread_rng()` on a buffer of 32 bytes. Nothing is
/// promised of the bytes: every call may return others.
#[verifier::external_body]
pub(crate) fn random_bytes_32() -> (r: [u8; 32]) {
    let mut bytes = [0u8; 32];
    rand::thread_rng().fill_bytes(&mut bytes);
    bytes
}

/// True of the numbers that carry the version and variant marks of a
/// random (version 4) UUID.
pub open spec fn is_random_uuid(id: u128) -> bool {
    id & 0x0000_0000_0000_f000_c000_0000_0000_0000u128
        == 0x0000_0000_0000_4000_8000_0000_0000_0000u128
}

/// `uuid::Uuid::new_v4`, as the number the UUID stands for. The crate sets
/// the version and variant bits of a random number; the rest is chance.
#[verifier::external_body]
pub(crate) fn fresh_uuid() -> (r: u128)
    ensures
        is_random_uuid(r),
{
    uuid::Uuid::new_v4().as_u128()
}

/// The hyphenated lower-case text of the UUID with the value `id`.
pub uninterp spec fn uuid_text(id: u128) -> Seq<char>;

/// What `uuid::Uuid::parse_str` reads from `text`; `None` where it reports
/// an error.
pub uninterp spec fn uuid_parsed(text: Seq<char>) -> Option<u128>;

/// `to_string` of `uuid::Uuid::from_u128(id)`. The text is one of the forms
/// that `parse_str` accepts, and reads back as `id`.
#[verifier::external_body]
pub(crate) fn format_uuid(id: u128) -> (r: String)
    ensures
        r@ == uuid_text(id),
        uuid_parsed(r@) == Some(id),
{
    uuid::Uuid::from_u128(id).to_string()
}

/// [`uuid::Uuid::parse_str`]. The result depends on the string alone.
#[verifier::external_body]
pub(crate) fn parse_uuid(text: &str) -> (r: Option<u128>)
    ensures
        r == uuid_parsed(text@),
{
    match uuid::Uuid::parse_str(text) {
        Ok(id) => Some(id.as_u128()),
        Err(_) => None,
    }
}

/// `nanoid::format` with the crate's default random source: a string of
/// `size` characters drawn from `alphabet`.
///
/// The crate refuses alphabets of more than 255 characters, and its loop
/// ends only once the string is `size` bytes long: that is why the alphabet
/// must be ASCII and not empty, and `size` at least one.
#[verifier::external_body]
pub(crate) fn nanoid_format(alphabet: &[char], size: usize) -> (r: String)
    requires
        0 < alphabet@.len() <= 255,
        forall|i: int| 0 <= i < alphabet@.len() ==> (alphabet@[i] as u32) < 128,
        0 < size <= 4096,
    ensures
        r@.len() == size,
        forall|i: int| 0 <= i < r@.len() ==> alphabet@.contains(#[trigger] r@[i]),
{
    nanoid::format(nanoid::rngs::default, alphabet, size)
}

} // verus!
