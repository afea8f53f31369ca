use vstd::prelude::*;
use crate::error::CredentialError;
use crate::policy::RESET_TOKEN_TTL_SECONDS;
use crate::store::{
    consumed, count_recent, is_recent, read_outcome, redeemable, tokens_unique, CredentialStore,
    LocalUserId, PasswordResetRequest,
};

verus! {

fn recent(published: i64, now: i64) -> (r: bool)
    ensures
        r == is_recent(published, now),
{
    (published as i128) > (now as i128) - (RESET_TOKEN_TTL_SECONDS as i128)
}

impl PasswordResetRequest {
    /// A field-by-field copy.
    pub fn duplicate(&self) -> (r: PasswordResetRequest)
        ensures
            r == *self,
    {
        PasswordResetRequest {
            id: self.id,
            local_user_id: self.local_user_id,
            token: self.token.clone(),
            published: self.published,
            valid: self.valid,
        }
    }

    /// Records a new reset request for `from_local_user_id`, published at
    /// `now`. The store refuses an unknown user, a token already in use, and
    /// a request once ids run out.
    pub fn create(
        store: &mut CredentialStore,
        from_local_user_id: LocalUserId,
        token_: String,
        now: i64,
    ) -> (r: Result<PasswordResetRequest, CredentialError>)
        requires
            old(store).wf(),
        ensures
            final(store).wf(),
            final(store).users@ == old(store).users@,
            final(store).logins@ == old(store).logins@,
            match r {
                Ok(row) => {
                    &&& old(store).has_user(from_local_user_id)
                    &&& old(store).resets@.len() + 1 < i32::MAX
                    &&& forall|i: int|
                        0 <= i < old(store).resets@.len() ==> old(store).resets@[i].token@
                            != token_@
                    &&& row == (PasswordResetRequest {
                        id: (old(store).resets@.len() + 1) as i32,
                        local_user_id: from_local_user_id,
                        token: token_,
                        published: now,
                        valid: true,
                    })
                    &&& final(store).resets@ == old(store).resets@.push(row)
                },
                Err(e) => {
                    &&& e == CredentialError::StoreUnavailable
                    &&& final(store).resets@ == old(store).resets@
                    &&& (!old(store).has_user(from_local_user_id) || old(store).resets@.len() + 1
                        >= i32::MAX || exists|i: int|
                        0 <= i < old(store).resets@.len() && old(store).resets@[i].token@
                            == token_@)
                },
            },
    {
        if !(from_local_user_id.0 >= 1 && (from_local_user_id.0 as usize) <= store.users.len()) {
            return Err(CredentialError::StoreUnavailable);
        }
        let n = store.resets.len();
        if n + 1 >= i32::MAX as usize {
            return Err(CredentialError::StoreUnavailable);
        }
        let mut i: usize = 0;
        while i < n
            invariant
                n == store.resets@.len(),
                i <= n,
                forall|k: int| 0 <= k < i ==> store.resets@[k].token@ != token_@,
                store.wf(),
                store.resets@ == old(store).resets@,
                store.users@ == old(store).users@,
                store.logins@ == old(store).logins@,
            decreases n - i,
        {
            if store.resets[i].token == token_ {
                return Err(CredentialError::StoreUnavailable);
            }
            i = i + 1;
        }
        let row = PasswordResetRequest {
            id: (n + 1) as i32,
            local_user_id: from_local_user_id,
            token: token_.clone(),
            published: now,
            valid: true,
        };
        let ghost before = store.resets@;
        store.resets.push(row.duplicate());
        proof {
            assert(store.resets@ == before.push(row));
            assert(tokens_unique(store.resets@)) by {
                assert forall|a: int, b: int|
                    0 <= a < store.resets@.len() && 0 <= b < store.resets@.len() && a != b
                        implies store.resets@[a].token@ != store.resets@[b].token@ by {
                    if a < n && b < n {
                        assert(before[a] == store.resets@[a]);
                        assert(before[b] == store.resets@[b]);
                    }
                }
            }
        }
        Ok(row)
    }

    /// Reads a reset token and invalidates it, in one step: the request with
    /// that token, if it is still valid and recent at `now`, is marked as used
    /// and returned.
    pub fn read(store: &mut CredentialStore, token_: &str, now: i64) -> (r: Option<
        PasswordResetRequest,
    >)
        requires
            old(store).wf(),
        ensures
            final(store).wf(),
            final(store).users@ == old(store).users@,
            final(store).logins@ == old(store).logins@,
            read_outcome(old(store).resets@, token_@, now, r, final(store).resets@),
    {
        let wanted = token_.to_owned();
        let n = store.resets.len();
        let mut i: usize = 0;
        while i < n
            invariant
                n == store.resets@.len(),
                i <= n,
                wanted@ == token_@,
                store.wf(),
                store.resets@ == old(store).resets@,
                store.users@ == old(store).users@,
                store.logins@ == old(store).logins@,
                forall|k: int| 0 <= k < i ==> !redeemable(#[trigger] store.resets@[k], token_@, now),
            decreases n - i,
        {
            let row = &store.resets[i];
            if row.valid && row.token == wanted && recent(row.published, now) {
                let used = PasswordResetRequest {
                    id: row.id,
                    local_user_id: row.local_user_id,
                    token: row.token.clone(),
                    published: row.published,
                    valid: false,
                };
                let ghost before = store.resets@;
                assert(used == consumed(before[i as int]));
                store.resets.set(i, used.duplicate());
                proof {
                    assert(store.resets@ == before.update(i as int, used));
                    assert(redeemable(before[i as int], token_@, now));
                    assert(read_outcome(before, token_@, now, Some(used), store.resets@));
                    assert(tokens_unique(store.resets@)) by {
                        assert forall|a: int, b: int|
                            0 <= a < store.resets@.len() && 0 <= b < store.resets@.len() && a
                                != b implies store.resets@[a].token@ != store.resets@[b].token@ by {
                            assert(store.resets@[a].token@ == before[a].token@);
                            assert(store.resets@[b].token@ == before[b].token@);
                        }
                    }
                    assert forall|k: int| 0 <= k < store.resets@.len() implies (
                    #[trigger] store.resets@[k]).id == k + 1 && store.has_user(
                        store.resets@[k].local_user_id,
                    ) by {
                        assert(store.resets@[k].id == before[k].id);
                    }
                }
                return Some(used);
            }
            i = i + 1;
        }
        None
    }

    /// The number of reset requests of `user_id` published within the token
    /// lifetime before `now`, used or not.
    pub fn recent_count(store: &CredentialStore, user_id: LocalUserId, now: i64) -> (r: i64)
        requires
            store.wf(),
        ensures
            r == count_recent(store.resets@, user_id, now),
    {
        let n = store.resets.len();
        let mut count: i64 = 0;
        let mut i: usize = 0;
        while i < n
            invariant
                n == store.resets@.len(),
                n < i32::MAX,
                i <= n,
                count == count_recent(store.resets@.subrange(0, i as int), user_id, now),
                count <= i,
            decreases n - i,
        {
            proof {
                assert(store.resets@.subrange(0, i + 1).drop_last() == store.resets@.subrange(
                    0,
                    i as int,
                ));
            }
            let row = &store.resets[i];
            if row.local_user_id == user_id && recent(row.published, now) {
                count = count + 1;
            }
            i = i + 1;
        }
        proof {
            assert(store.resets@.subrange(0, n as int) == store.resets@);
        }
        count
    }
}

} // verus!
