use vstd::prelude::*;
use crate::error::CredentialError;
use crate::hashing::{bcrypt_accepts, hash_password, verify_password};
use crate::policy::{check_new_password, new_password_error, CredentialConfig};
use crate::store::{
    consumed, count_recent, redeemable, revoke_all, tokens_unique, CredentialStore, LocalUser,
    LocalUserId, LoginToken, PasswordResetRequest,
};

verus! {

/// A password change asked for by a logged-in user.
#[derive(Clone, Debug)]
pub struct ChangePassword {
    pub new_password: String,
    pub new_password_verify: String,
    pub old_password: String,
}

/// A new password chosen after a reset request.
#[derive(Clone, Debug)]
pub struct PasswordChangeAfterReset {
    pub password: String,
    pub password_verify: String,
}

/// What a successful credential change returns: the new session token.
#[derive(Clone, Debug)]
pub struct LoginResponse {
    pub jwt: Option<String>,
    pub verify_email_sent: bool,
    pub registration_created: bool,
}

/// `users1`/`logins1` follow from `users0`/`logins0` by replacing the
/// password hash of `user` (and nothing else of the users), revoking every
/// session of `user`, and then opening one session `session` at `now`.
pub open spec fn credential_replaced(
    users0: Seq<LocalUser>,
    logins0: Seq<LoginToken>,
    users1: Seq<LocalUser>,
    logins1: Seq<LoginToken>,
    user: LocalUserId,
    session: String,
    now: i64,
) -> bool {
    &&& 1 <= user.0 <= users0.len()
    &&& users1.len() == users0.len()
    &&& users1[user.0 - 1].id == user
    &&& forall|i: int| 0 <= i < users0.len() && i != user.0 - 1 ==> #[trigger] users1[i] == users0[i]
    &&& logins1 == revoke_all(logins0, user).push(
        LoginToken { token: session, user_id: user, published: now, valid: true },
    )
}

/// Why a password change is refused, if it is: the new password is checked
/// first, then the old one against the stored hash.
pub open spec fn change_password_error(
    store: CredentialStore,
    user: LocalUserId,
    data: ChangePassword,
    config: CredentialConfig,
) -> Option<CredentialError> {
    match new_password_error(data.new_password@, data.new_password_verify@, config) {
        Some(e) => Some(e),
        None => if bcrypt_accepts(data.old_password@, store.hash_of(user)) {
            None
        } else {
            Some(CredentialError::IncorrectLogin)
        },
    }
}

/// Whether some reset request can be redeemed with `token` at `now`.
pub open spec fn token_redeemable(rows: Seq<PasswordResetRequest>, token: Seq<char>, now: i64) -> bool {
    exists|i: int| 0 <= i < rows.len() && redeemable(#[trigger] rows[i], token, now)
}

/// The position of the request that `token` redeems at `now`.
pub open spec fn redeemed_index(rows: Seq<PasswordResetRequest>, token: Seq<char>, now: i64) -> int {
    choose|i: int| 0 <= i < rows.len() && redeemable(#[trigger] rows[i], token, now)
}

/// Whether the store's records are the same.
pub open spec fn same_records(a: CredentialStore, b: CredentialStore) -> bool {
    a.users@ == b.users@ && a.resets@ == b.resets@ && a.logins@ == b.logins@
}

/// Stores the hash of a user's new password, revokes all the user's sessions
/// and opens the session `session_token`, in that order. Without a hash
/// (hashing failed) nothing changes and the store's error is returned.
pub fn finish_password_change(
    store: &mut CredentialStore,
    user: LocalUserId,
    new_hash: Option<String>,
    session_token: String,
    now: i64,
) -> (r: Result<LoginResponse, CredentialError>)
    requires
        old(store).wf(),
        old(store).has_user(user),
    ensures
        final(store).wf(),
        final(store).resets@ == old(store).resets@,
        match new_hash {
            Some(h) => {
                &&& r is Ok
                &&& r->Ok_0.jwt == Some(session_token)
                &&& !r->Ok_0.verify_email_sent
                &&& !r->Ok_0.registration_created
                &&& final(store).hash_of(user) == h@
                &&& credential_replaced(
                    old(store).users@,
                    old(store).logins@,
                    final(store).users@,
                    final(store).logins@,
                    user,
                    session_token,
                    now,
                )
            },
            None => r == Err::<LoginResponse, CredentialError>(CredentialError::StoreUnavailable)
                && same_records(*old(store), *final(store)),
        },
{
    match new_hash {
        Some(h) => {
            store.update_password(user, h);
            LoginToken::invalidate_all(store, user);
            let jwt = session_token.clone();
            LoginToken::create(store, user, session_token, now);
            Ok(LoginResponse { jwt: Some(jwt), verify_email_sent: false, registration_created: false })
        },
        None => Err(CredentialError::StoreUnavailable),
    }
}

/// Changes the password of the logged-in user `local_user_id`. The new
/// password must meet the policy and equal its confirmation, and the old one
/// must verify against the stored hash; then the new hash is stored, every
/// session of the user is revoked and the session `session_token` is opened.
pub fn change_password(
    store: &mut CredentialStore,
    local_user_id: LocalUserId,
    data: &ChangePassword,
    session_token: String,
    now: i64,
    config: &CredentialConfig,
) -> (r: Result<LoginResponse, CredentialError>)
    requires
        old(store).wf(),
        old(store).has_user(local_user_id),
    ensures
        final(store).wf(),
        final(store).resets@ == old(store).resets@,
        change_password_error(*old(store), local_user_id, *data, *config) is None && !(4
            <= config.hash_cost <= 31) ==> r == Err::<LoginResponse, CredentialError>(
            CredentialError::StoreUnavailable,
        ),
        match change_password_error(*old(store), local_user_id, *data, *config) {
            Some(e) => r == Err::<LoginResponse, CredentialError>(e) && same_records(
                *old(store),
                *final(store),
            ),
            None => {
                ||| {
                    &&& r is Ok
                    &&& r->Ok_0.jwt == Some(session_token)
                    &&& !r->Ok_0.verify_email_sent
                    &&& !r->Ok_0.registration_created
                    &&& bcrypt_accepts(data.new_password@, final(store).hash_of(local_user_id))
                    &&& credential_replaced(
                        old(store).users@,
                        old(store).logins@,
                        final(store).users@,
                        final(store).logins@,
                        local_user_id,
                        session_token,
                        now,
                    )
                }
                ||| r == Err::<LoginResponse, CredentialError>(CredentialError::StoreUnavailable)
                    && same_records(*old(store), *final(store))
            },
        },
{
    check_new_password(&data.new_password, &data.new_password_verify, config)?;
    let stored = &store.users[(local_user_id.0 - 1) as usize].password_encrypted;
    if !verify_password(data.old_password.as_str(), stored.as_str()) {
        return Err(CredentialError::IncorrectLogin);
    }
    let new_hash = hash_password(data.new_password.as_str(), config.hash_cost);
    finish_password_change(store, local_user_id, new_hash, session_token, now)
}

/// Asks for a password reset for `user_id` under the fresh token `token_`,
/// at `now`. Returns the number of recent requests counted before this one.
/// With a limit configured, a user whose recent count exceeds it gets no new
/// request.
pub fn request_reset(
    store: &mut CredentialStore,
    user_id: LocalUserId,
    token_: String,
    now: i64,
    config: &CredentialConfig,
) -> (r: Result<i64, CredentialError>)
    requires
        old(store).wf(),
    ensures
        final(store).wf(),
        final(store).users@ == old(store).users@,
        final(store).logins@ == old(store).logins@,
        ({
            let n = count_recent(old(store).resets@, user_id, now);
            match config.max_recent_resets {
                Some(limit) if n > limit => r == Err::<i64, CredentialError>(
                    CredentialError::TooManyRequests,
                ) && final(store).resets@ == old(store).resets@,
                _ => match r {
                    Ok(c) => c == n && final(store).resets@ == old(store).resets@.push(
                        PasswordResetRequest {
                            id: (old(store).resets@.len() + 1) as i32,
                            local_user_id: user_id,
                            token: token_,
                            published: now,
                            valid: true,
                        },
                    ),
                    Err(e) => e == CredentialError::StoreUnavailable && final(store).resets@ == old(
                        store,
                    ).resets@ && (!old(store).has_user(user_id) || old(store).resets@.len() + 1
                        >= i32::MAX || exists|i: int|
                        0 <= i < old(store).resets@.len() && old(store).resets@[i].token@
                            == token_@),
                },
            }
        }),
{
    let count = PasswordResetRequest::recent_count(store, user_id, now);
    if let Some(limit) = config.max_recent_resets {
        if count as u64 > limit {
            return Err(CredentialError::TooManyRequests);
        }
    }
    PasswordResetRequest::create(store, user_id, token_, now)?;
    Ok(count)
}

/// Two requests that `token` redeems at `now` are one: tokens are unique.
proof fn lemma_redeemable_unique(
    rows: Seq<PasswordResetRequest>,
    token: Seq<char>,
    now: i64,
    i: int,
    j: int,
)
    requires
        tokens_unique(rows),
        0 <= i < rows.len(),
        0 <= j < rows.len(),
        redeemable(rows[i], token, now),
        redeemable(rows[j], token, now),
    ensures
        i == j,
{
}

/// Sets a new password with the reset token `token_` at `now`. The token is
/// looked up and used up in one step; only then is the new password checked,
/// and on success the hash of the token's user is replaced, all of that
/// user's sessions are revoked and the session `session_token` is opened.
pub fn redeem_reset(
    store: &mut CredentialStore,
    token_: &str,
    data: &PasswordChangeAfterReset,
    session_token: String,
    now: i64,
    config: &CredentialConfig,
) -> (r: Result<LoginResponse, CredentialError>)
    requires
        old(store).wf(),
    ensures
        final(store).wf(),
        !token_redeemable(old(store).resets@, token_@, now) ==> r == Err::<
            LoginResponse,
            CredentialError,
        >(CredentialError::TokenInvalidOrExpired) && same_records(*old(store), *final(store)),
        token_redeemable(old(store).resets@, token_@, now) && new_password_error(
            data.password@,
            data.password_verify@,
            *config,
        ) is None && !(4 <= config.hash_cost <= 31) ==> r == Err::<LoginResponse, CredentialError>(
            CredentialError::StoreUnavailable,
        ),
        token_redeemable(old(store).resets@, token_@, now) ==> ({
            let i = redeemed_index(old(store).resets@, token_@, now);
            let user = old(store).resets@[i].local_user_id;
            &&& final(store).resets@ == old(store).resets@.update(
                i,
                consumed(old(store).resets@[i]),
            )
            &&& match new_password_error(data.password@, data.password_verify@, *config) {
                Some(e) => r == Err::<LoginResponse, CredentialError>(e) && final(store).users@
                    == old(store).users@ && final(store).logins@ == old(store).logins@,
                None => {
                    ||| {
                        &&& r is Ok
                        &&& r->Ok_0.jwt == Some(session_token)
                        &&& !r->Ok_0.verify_email_sent
                        &&& !r->Ok_0.registration_created
                        &&& bcrypt_accepts(data.password@, final(store).hash_of(user))
                        &&& credential_replaced(
                            old(store).users@,
                            old(store).logins@,
                            final(store).users@,
                            final(store).logins@,
                            user,
                            session_token,
                            now,
                        )
                    }
                    ||| r == Err::<LoginResponse, CredentialError>(
                        CredentialError::StoreUnavailable,
                    ) && final(store).users@ == old(store).users@ && final(store).logins@ == old(
                        store,
                    ).logins@
                },
            }
        }),
{
    let ghost before = store.resets@;
    let found = PasswordResetRequest::read(store, token_, now);
    let row = match found {
        Some(row) => row,
        None => {
            return Err(CredentialError::TokenInvalidOrExpired);
        },
    };
    proof {
        let k = choose|k: int|
            0 <= k < before.len() && redeemable(#[trigger] before[k], token_@, now) && row
                == consumed(before[k]) && store.resets@ == before.update(k, row);
        assert(token_redeemable(before, token_@, now));
        let i = redeemed_index(before, token_@, now);
        lemma_redeemable_unique(before, token_@, now, i, k);
    }
    check_new_password(&data.password, &data.password_verify, config)?;
    let new_hash = hash_password(data.password.as_str(), config.hash_cost);
    finish_password_change(store, row.local_user_id, new_hash, session_token, now)
}

} // verus!
