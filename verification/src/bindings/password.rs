use vstd::prelude::*;

verus! {

/// The verdict of `bcrypt::verify` on a password and a stored hash: whether
/// they match, or `None` where the hash is malformed.
pub uninterp spec fn bcrypt_verdict(password: Seq<char>, hash: Seq<char>) -> Option<bool>;

/// [`bcrypt::hash`]: a salted hash of the password at the given cost, or
/// nothing where the crate reports an error (a cost outside 4..=31, no
/// randomness for the salt).
///
/// The salt is random, so two calls differ. Whatever the salt, the hash
/// holds it together with the cost, and `bcrypt::verify` accepts the same
/// password against it.
#[verifier::external_body]
pub(crate) fn bcrypt_hash(password: &str, cost: u32) -> (r: Option<String>)
    ensures
        r matches Some(hash) ==> bcrypt_verdict(password@, hash@) == Some(true),
{
    match bcrypt::hash(password, cost) {
        Ok(hash) => Some(hash),
        Err(_) => None,
    }
}

/// [`bcrypt::verify`]. The verdict depends on the two strings alone.
#[verifier::external_body]
pub(crate) fn bcrypt_verify(password: &str, hash: &str) -> (r: Option<bool>)
    ensures
        r == bcrypt_verdict(password@, hash@),
{
    match bcrypt::verify(password, hash) {
        Ok(matches) => Some(matches),
        Err(_) => None,
    }
}

} // verus!
