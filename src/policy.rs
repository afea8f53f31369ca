use vstd::prelude::*;
use crate::error::CredentialError;

verus! {

/// Lifetime of a reset token, in seconds (one day).
pub const RESET_TOKEN_TTL_SECONDS: i64 = 86400;

/// Settings that the services are built with.
#[derive(Clone, Copy, Debug)]
pub struct CredentialConfig {
    /// Fewest characters a new password may have.
    pub min_password_length: usize,
    /// Most characters a new password may have.
    pub max_password_length: usize,
    /// A user with more recent reset requests than this gets no new one.
    pub max_recent_resets: Option<u64>,
    /// The bcrypt cost new hashes are made with.
    pub hash_cost: u32,
}

/// Whether `p` meets the length policy of `c`.
pub open spec fn password_length_ok(p: Seq<char>, c: CredentialConfig) -> bool {
    c.min_password_length <= p.len() <= c.max_password_length
}

/// Whether a new password is acceptable, and if not, why.
pub open spec fn new_password_error(
    password: Seq<char>,
    confirmation: Seq<char>,
    c: CredentialConfig,
) -> Option<CredentialError> {
    if !password_length_ok(password, c) {
        Some(CredentialError::WeakPassword)
    } else if password != confirmation {
        Some(CredentialError::PasswordsDoNotMatch)
    } else {
        None
    }
}

/// Checks the number of characters of a new password against the policy.
pub fn password_length_check(pass: &str, config: &CredentialConfig) -> (r: Result<
    (),
    CredentialError,
>)
    ensures
        r is Ok <==> password_length_ok(pass@, *config),
        r is Err ==> r == Err::<(), CredentialError>(CredentialError::WeakPassword),
{
    let n = pass.unicode_len();
    if config.min_password_length <= n && n <= config.max_password_length {
        Ok(())
    } else {
        Err(CredentialError::WeakPassword)
    }
}

/// Checks a new password and its confirmation: the length first, then that
/// the two agree.
pub fn check_new_password(
    password: &String,
    confirmation: &String,
    config: &CredentialConfig,
) -> (r: Result<(), CredentialError>)
    ensures
        match new_password_error(password@, confirmation@, *config) {
            Some(e) => r == Err::<(), CredentialError>(e),
            None => r is Ok,
        },
{
    password_length_check(password.as_str(), config)?;
    if *password != *confirmation {
        return Err(CredentialError::PasswordsDoNotMatch);
    }
    Ok(())
}

} // verus!
