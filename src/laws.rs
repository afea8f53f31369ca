use vstd::prelude::*;
use crate::error::CredentialError;
use crate::hashing::bcrypt_accepts;
use crate::policy::{new_password_error, password_length_ok, CredentialConfig};
use crate::service::{
    change_password_error, credential_replaced, redeemed_index, token_redeemable, ChangePassword,
};
use crate::store::{
    consumed, count_recent, is_recent, revoke_all, session_active, tokens_unique, CredentialStore,
    LocalUser, LocalUserId, LoginToken, PasswordResetRequest,
};

verus! {

/// A password change with a policy-conforming new password, a matching
/// confirmation and an old password that verifies is not refused.
pub proof fn lemma_valid_change_accepted(
    store: CredentialStore,
    user: LocalUserId,
    data: ChangePassword,
    config: CredentialConfig,
)
    requires
        password_length_ok(data.new_password@, config),
        data.new_password@ == data.new_password_verify@,
        bcrypt_accepts(data.old_password@, store.hash_of(user)),
    ensures
        change_password_error(store, user, data, config) is None,
{
}

/// After a credential change, every session the user had is revoked, the
/// sessions of other users are untouched, and the new session is usable.
pub proof fn lemma_credential_change_revokes_sessions(
    users0: Seq<LocalUser>,
    logins0: Seq<LoginToken>,
    users1: Seq<LocalUser>,
    logins1: Seq<LoginToken>,
    user: LocalUserId,
    session: String,
    now: i64,
)
    requires
        credential_replaced(users0, logins0, users1, logins1, user, session, now),
    ensures
        logins1.len() == logins0.len() + 1,
        forall|i: int|
            0 <= i < logins0.len() && logins0[i].user_id == user ==> !(#[trigger] logins1[i]).valid,
        forall|i: int|
            0 <= i < logins0.len() && logins0[i].user_id != user ==> #[trigger] logins1[i]
                == logins0[i],
        session_active(logins1, user, session@),
{
    let k = logins0.len() as int;
    assert(logins1[k] == LoginToken { token: session, user_id: user, published: now, valid: true });
    assert forall|i: int| 0 <= i < logins0.len() implies #[trigger] logins1[i] == revoke_all(
        logins0,
        user,
    )[i] by {}
}

/// A new password that differs from its confirmation is refused as a
/// mismatch, both when changing and when redeeming a reset token, as long as
/// it meets the length policy (which is checked first).
pub proof fn lemma_mismatched_confirmation_rejected(
    store: CredentialStore,
    user: LocalUserId,
    data: ChangePassword,
    config: CredentialConfig,
)
    requires
        password_length_ok(data.new_password@, config),
        data.new_password@ != data.new_password_verify@,
    ensures
        new_password_error(data.new_password@, data.new_password_verify@, config) == Some(
            CredentialError::PasswordsDoNotMatch,
        ),
        change_password_error(store, user, data, config) == Some(
            CredentialError::PasswordsDoNotMatch,
        ),
{
}

/// Once a token has redeemed a reset request, it redeems nothing any more,
/// at any time.
pub proof fn lemma_redeemed_token_is_spent(
    before: Seq<PasswordResetRequest>,
    token: Seq<char>,
    now: i64,
    later: i64,
)
    requires
        tokens_unique(before),
        token_redeemable(before, token, now),
    ensures
        ({
            let i = redeemed_index(before, token, now);
            !token_redeemable(before.update(i, consumed(before[i])), token, later)
        }),
{
    let i = redeemed_index(before, token, now);
    let after = before.update(i, consumed(before[i]));
    if token_redeemable(after, token, later) {
        let j = choose|j: int|
            0 <= j < after.len() && crate::store::redeemable(#[trigger] after[j], token, later);
        assert(j != i);
        assert(after[j] == before[j]);
    }
}

/// A token whose requests were all published a full lifetime or more before
/// `now` redeems nothing, used or not.
pub proof fn lemma_expired_token_unredeemable(
    rows: Seq<PasswordResetRequest>,
    token: Seq<char>,
    now: i64,
)
    requires
        forall|i: int| 0 <= i < rows.len() && (#[trigger] rows[i]).token@ == token ==> !is_recent(
            rows[i].published,
            now,
        ),
    ensures
        !token_redeemable(rows, token, now),
{
}

/// Requests created for `user` within the lifetime window each add one to the
/// user's recent count.
pub proof fn lemma_recent_count_of_new_requests(
    before: Seq<PasswordResetRequest>,
    created: Seq<PasswordResetRequest>,
    user: LocalUserId,
    now: i64,
)
    requires
        forall|i: int|
            0 <= i < created.len() ==> (#[trigger] created[i]).local_user_id == user && is_recent(
                created[i].published,
                now,
            ),
    ensures
        count_recent(before + created, user, now) == count_recent(before, user, now)
            + created.len(),
    decreases created.len(),
{
    if created.len() == 0 {
        assert(before + created == before);
    } else {
        let shorter = created.drop_last();
        lemma_recent_count_of_new_requests(before, shorter, user, now);
        assert((before + created).drop_last() == before + shorter);
        assert((before + created).last() == created[created.len() - 1]);
    }
}

/// Once the lifetime window has passed for all of a user's requests, the
/// user's recent count is zero.
pub proof fn lemma_recent_count_after_window(
    rows: Seq<PasswordResetRequest>,
    user: LocalUserId,
    now: i64,
)
    requires
        forall|i: int|
            0 <= i < rows.len() && (#[trigger] rows[i]).local_user_id == user ==> !is_recent(
                rows[i].published,
                now,
            ),
    ensures
        count_recent(rows, user, now) == 0,
    decreases rows.len(),
{
    if rows.len() > 0 {
        let shorter = rows.drop_last();
        assert forall|i: int|
            0 <= i < shorter.len() && (#[trigger] shorter[i]).local_user_id == user implies !is_recent(
            shorter[i].published,
            now,
        ) by {
            assert(shorter[i] == rows[i]);
        }
        lemma_recent_count_after_window(shorter, user, now);
    }
}

/// A credential change alters the stored hash whenever the old hash does not
/// already accept the new password: the new hash accepts it.
pub proof fn lemma_new_hash_replaces_old(
    old_hash: Seq<char>,
    new_hash: Seq<char>,
    new_password: Seq<char>,
)
    requires
        bcrypt_accepts(new_password, new_hash),
        !bcrypt_accepts(new_password, old_hash),
    ensures
        new_hash != old_hash,
{
}

} // verus!
