use vstd::prelude::*;
use crate::store::{revoke_all, CredentialStore, LocalUserId, LoginToken};

verus! {

impl LoginToken {
    /// Revokes every session of `user_id`; other users' sessions stay as they
    /// are.
    pub fn invalidate_all(store: &mut CredentialStore, user_id: LocalUserId)
        requires
            old(store).wf(),
        ensures
            final(store).wf(),
            final(store).users@ == old(store).users@,
            final(store).resets@ == old(store).resets@,
            final(store).logins@ == revoke_all(old(store).logins@, user_id),
    {
        let n = store.logins.len();
        let mut i: usize = 0;
        while i < n
            invariant
                n == store.logins@.len(),
                n == old(store).logins@.len(),
                i <= n,
                store.wf(),
                store.users@ == old(store).users@,
                store.resets@ == old(store).resets@,
                forall|k: int|
                    0 <= k < i ==> store.logins@[k] == revoke_all(old(store).logins@, user_id)[k],
                forall|k: int| i <= k < n ==> store.logins@[k] == old(store).logins@[k],
            decreases n - i,
        {
            if store.logins[i].user_id == user_id {
                let revoked = LoginToken {
                    token: store.logins[i].token.clone(),
                    user_id: store.logins[i].user_id,
                    published: store.logins[i].published,
                    valid: false,
                };
                store.logins.set(i, revoked);
            }
            i = i + 1;
        }
        proof {
            assert(store.logins@ == revoke_all(old(store).logins@, user_id));
        }
    }

    /// Opens a new session for `user_id` under `token_`, published at `now`.
    pub fn create(store: &mut CredentialStore, user_id: LocalUserId, token_: String, now: i64)
        requires
            old(store).wf(),
        ensures
            final(store).wf(),
            final(store).users@ == old(store).users@,
            final(store).resets@ == old(store).resets@,
            final(store).logins@ == old(store).logins@.push(
                LoginToken { token: token_, user_id, published: now, valid: true },
            ),
    {
        store.logins.push(LoginToken { token: token_, user_id, published: now, valid: true });
    }
}

} // verus!
