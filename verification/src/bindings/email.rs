use vstd::prelude::*;

verus! {

/// Whether `email_address::EmailAddress::is_valid` accepts `text` as an
/// e-mail address.
pub uninterp spec fn email_address_valid(text: Seq<char>) -> bool;

/// [`email_address::EmailAddress::is_valid`]. The verdict depends on the
/// string alone.
#[verifier::external_body]
pub(crate) fn is_valid_email_address(text: &str) -> (r: bool)
    ensures
        r == email_address_valid(text@),
{
    email_address::EmailAddress::is_valid(text)
}

} // verus!
