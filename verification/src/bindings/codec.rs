use vstd::prelude::*;
use base64::Engine;
use sha2::Digest;

verus! {

/// The SHA-256 digest of `data`.
pub uninterp spec fn sha256(data: Seq<u8>) -> Seq<u8>;

/// `sha2::Sha256::digest`: the digest is a function of the data and is 32
/// bytes long.
#[verifier::external_body]
pub(crate) fn sha256_digest(data: &[u8]) -> (r: Vec<u8>)
    ensures
        r@ == sha256(data@),
        r@.len() == 32,
{
    sha2::Sha256::digest(data).to_vec()
}

/// The length of the base64 of `bytes` bytes: four characters for every
/// three bytes, and for what is left over four characters with padding, two
/// or three without.
pub open spec fn base64_length(bytes: int, padding: bool) -> int {
    4 * (bytes / 3) + if bytes % 3 == 0 {
        0int
    } else if padding {
        4int
    } else if bytes % 3 == 1 {
        2int
    } else {
        3int
    }
}

/// `data` in base64 with the standard alphabet and padding.
pub uninterp spec fn base64_standard(data: Seq<u8>) -> Seq<char>;

/// `encode` of `base64::engine::general_purpose::STANDARD`. The call fails
/// only where the length of the output does not fit the machine, which the
/// bound on the input rules out. The length of the output is the one the
/// crate computes beforehand from the length of the input.
#[verifier::external_body]
pub(crate) fn encode_standard(data: &[u8]) -> (r: String)
    requires
        data@.len() <= usize::MAX / 2,
    ensures
        r@ == base64_standard(data@),
        r@.len() == base64_length(data@.len() as int, true),
{
    base64::engine::general_purpose::STANDARD.encode(data)
}

/// `data` in base64 with the URL-safe alphabet and no padding.
pub uninterp spec fn base64_url_unpadded(data: Seq<u8>) -> Seq<char>;

/// `encode` of `base64::engine::general_purpose::URL_SAFE_NO_PAD`, under
/// the same bound as [`encode_standard`].
#[verifier::external_body]
pub(crate) fn encode_url_unpadded(data: &[u8]) -> (r: String)
    requires
        data@.len() <= usize::MAX / 2,
    ensures
        r@ == base64_url_unpadded(data@),
        r@.len() == base64_length(data@.len() as int, false),
{
    base64::engine::general_purpose::URL_SAFE_NO_PAD.encode(data)
}

/// The bytes that `text` stands for in standard base64; `None` where `text`
/// is not such an encoding.
pub uninterp spec fn base64_standard_decoded(text: Seq<char>) -> Option<Seq<u8>>;

/// `decode` of `base64::engine::general_purpose::STANDARD`: the bytes, or
/// nothing where the engine reports an error.
#[verifier::external_body]
pub(crate) fn decode_standard(text: &str) -> (r: Option<Vec<u8>>)
    ensures
        r is Some == base64_standard_decoded(text@) is Some,
        r matches Some(bytes) ==> base64_standard_decoded(text@) == Some(bytes@),
{
    match base64::engine::general_purpose::STANDARD.decode(text) {
        Ok(bytes) => Some(bytes),
        Err(_) => None,
    }
}

} // verus!
