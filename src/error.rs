use vstd::prelude::*;

verus! {

/// What can go wrong while changing or recovering a password.
#[derive(Clone, Copy, Debug, PartialEq, Eq, Structural)]
pub enum CredentialError {
    /// The new password breaks the length policy.
    WeakPassword,
    /// The new password and its confirmation differ.
    PasswordsDoNotMatch,
    /// The old password did not verify against the stored hash.
    IncorrectLogin,
    /// The reset token is unknown, already used, or past its lifetime.
    TokenInvalidOrExpired,
    /// Too many reset requests were made for the user recently.
    TooManyRequests,
    /// The store could not carry out the operation.
    StoreUnavailable,
}

} // verus!
