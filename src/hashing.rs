use vstd::prelude::*;

verus! {

/// Whether bcrypt accepts `password` against the stored `hash`; a hash that
/// bcrypt cannot read accepts nothing.
pub uninterp spec fn bcrypt_accepts(password: Seq<char>, hash: Seq<char>) -> bool;

/// Relies on bcrypt::verify, which recomputes the hash with the salt and cost
/// read from `hash`: its outcome depends on the two arguments alone. An error
/// (an unreadable hash) counts as a failed verification.
#[verifier::external_body]
pub(crate) fn verify_password(password: &str, hash: &str) -> (r: bool)
    ensures
        r == bcrypt_accepts(password@, hash@),
{
    bcrypt::verify(password, hash).unwrap_or(false)
}

/// Relies on bcrypt::hash, which draws a random salt and writes cost, salt and
/// digest into the hash it returns, so that bcrypt::verify accepts the
/// password against it. It fails for a cost outside 4..=31 and when the
/// system's randomness is unavailable.
#[verifier::external_body]
pub(crate) fn hash_password(password: &str, cost: u32) -> (r: Option<String>)
    ensures
        !(4 <= cost <= 31) ==> r is None,
        r matches Some(h) ==> bcrypt_accepts(password@, h@),
{
    bcrypt::hash(password, cost).ok()
}

} // verus!
