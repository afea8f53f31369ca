use vstd::prelude::*;
use crate::policy::RESET_TOKEN_TTL_SECONDS;

verus! {

/// Identifies a local user; ids are handed out from 1 upwards.
#[derive(Clone, Copy, Debug, PartialEq, Eq, Structural)]
pub struct LocalUserId(pub i32);

/// A user's credential: the bcrypt hash of the current password.
#[derive(Clone, Debug)]
pub struct LocalUser {
    pub id: LocalUserId,
    pub password_encrypted: String,
}

/// A request to reset a password. Rows are never removed: a redeemed request
/// is only marked as no longer valid. Times are seconds since the epoch.
#[derive(Clone, Debug)]
pub struct PasswordResetRequest {
    pub id: i32,
    pub local_user_id: LocalUserId,
    pub token: String,
    pub published: i64,
    pub valid: bool,
}

/// A login session; it can be used while `valid` holds.
#[derive(Clone, Debug)]
pub struct LoginToken {
    pub token: String,
    pub user_id: LocalUserId,
    pub published: i64,
    pub valid: bool,
}

/// The records this library reads and writes.
pub struct CredentialStore {
    pub users: Vec<LocalUser>,
    pub resets: Vec<PasswordResetRequest>,
    pub logins: Vec<LoginToken>,
}

/// Whether something published at `published` is still recent at `now`.
pub open spec fn is_recent(published: i64, now: i64) -> bool {
    published > now - RESET_TOKEN_TTL_SECONDS
}

/// Whether a reset request can still be redeemed with `token` at `now`.
pub open spec fn redeemable(r: PasswordResetRequest, token: Seq<char>, now: i64) -> bool {
    r.valid && r.token@ == token && is_recent(r.published, now)
}

/// The reset request once it has been used.
pub open spec fn consumed(r: PasswordResetRequest) -> PasswordResetRequest {
    PasswordResetRequest {
        id: r.id,
        local_user_id: r.local_user_id,
        token: r.token,
        published: r.published,
        valid: false,
    }
}

/// No two reset requests share a token.
pub open spec fn tokens_unique(rows: Seq<PasswordResetRequest>) -> bool {
    forall|i: int, j: int|
        0 <= i < rows.len() && 0 <= j < rows.len() && i != j ==> rows[i].token@ != rows[j].token@
}

/// How many of `rows` belong to `user` and were published recently at `now`.
pub open spec fn count_recent(rows: Seq<PasswordResetRequest>, user: LocalUserId, now: i64) -> nat
    decreases rows.len(),
{
    if rows.len() == 0 {
        0
    } else {
        let last = rows.last();
        count_recent(rows.drop_last(), user, now) + if last.local_user_id == user && is_recent(
            last.published,
            now,
        ) {
            1nat
        } else {
            0nat
        }
    }
}

/// What reading a reset token does: the matching request, if any, is marked
/// as used and handed back; otherwise nothing changes.
pub open spec fn read_outcome(
    before: Seq<PasswordResetRequest>,
    token: Seq<char>,
    now: i64,
    r: Option<PasswordResetRequest>,
    after: Seq<PasswordResetRequest>,
) -> bool {
    match r {
        Some(row) => exists|i: int|
            0 <= i < before.len() && redeemable(#[trigger] before[i], token, now) && row == consumed(
                before[i],
            )
                && after == before.update(i, row),
        None => after == before && forall|i: int|
            0 <= i < before.len() ==> !redeemable(#[trigger] before[i], token, now),
    }
}

/// The login tokens once every session of `user` is revoked.
pub open spec fn revoke_all(logins: Seq<LoginToken>, user: LocalUserId) -> Seq<LoginToken> {
    Seq::new(
        logins.len(),
        |i: int|
            if logins[i].user_id == user {
                LoginToken {
                    token: logins[i].token,
                    user_id: logins[i].user_id,
                    published: logins[i].published,
                    valid: false,
                }
            } else {
                logins[i]
            },
    )
}

/// Whether `token` opens a session of `user` in `logins`.
pub open spec fn session_active(logins: Seq<LoginToken>, user: LocalUserId, token: Seq<char>) -> bool {
    exists|i: int|
        0 <= i < logins.len() && logins[i].valid && logins[i].user_id == user && logins[i].token@
            == token
}

impl CredentialStore {
    /// The store's invariant: ids follow positions, every reset request
    /// belongs to a known user, and reset tokens are unique.
    pub open spec fn wf(&self) -> bool {
        &&& self.users@.len() < i32::MAX
        &&& self.resets@.len() < i32::MAX
        &&& forall|i: int| 0 <= i < self.users@.len() ==> #[trigger] self.users@[i].id.0 == i + 1
        &&& forall|i: int|
            0 <= i < self.resets@.len() ==> (#[trigger] self.resets@[i]).id == i + 1
                && self.has_user(self.resets@[i].local_user_id)
        &&& tokens_unique(self.resets@)
    }

    pub open spec fn has_user(&self, user: LocalUserId) -> bool {
        1 <= user.0 <= self.users@.len()
    }

    /// The stored password hash of a known user.
    pub open spec fn hash_of(&self, user: LocalUserId) -> Seq<char> {
        self.users@[user.0 - 1].password_encrypted@
    }

    /// An empty store.
    pub fn new() -> (s: CredentialStore)
        ensures
            s.wf(),
            s.users@.len() == 0,
            s.resets@.len() == 0,
            s.logins@.len() == 0,
    {
        CredentialStore { users: Vec::new(), resets: Vec::new(), logins: Vec::new() }
    }

    /// Adds a user with the given password hash; `None` once ids run out.
    pub fn create_user(&mut self, password_encrypted: String) -> (r: Option<LocalUserId>)
        requires
            old(self).wf(),
        ensures
            final(self).wf(),
            final(self).resets@ == old(self).resets@,
            final(self).logins@ == old(self).logins@,
            match r {
                Some(id) => old(self).users@.len() + 1 < i32::MAX && id.0 == old(self).users@.len() + 1
                    && final(self).users@ == old(self).users@.push(
                    LocalUser { id, password_encrypted },
                ),
                None => old(self).users@.len() + 1 >= i32::MAX && final(self).users@ == old(
                    self,
                ).users@,
            },
    {
        let n = self.users.len();
        if n + 1 >= i32::MAX as usize {
            return None;
        }
        let id = LocalUserId((n + 1) as i32);
        self.users.push(LocalUser { id, password_encrypted });
        Some(id)
    }

    /// The stored password hash of a user, if the user exists.
    pub fn password_hash(&self, user: LocalUserId) -> (r: Option<&String>)
        requires
            self.wf(),
        ensures
            match r {
                Some(h) => self.has_user(user) && h@ == self.hash_of(user),
                None => !self.has_user(user),
            },
    {
        if user.0 >= 1 && (user.0 as usize) <= self.users.len() {
            Some(&self.users[(user.0 - 1) as usize].password_encrypted)
        } else {
            None
        }
    }

    /// Replaces the password hash of a known user.
    pub fn update_password(&mut self, user: LocalUserId, new_hash: String)
        requires
            old(self).wf(),
            old(self).has_user(user),
        ensures
            final(self).wf(),
            final(self).users@ == old(self).users@.update(
                user.0 - 1,
                LocalUser { id: user, password_encrypted: new_hash },
            ),
            final(self).resets@ == old(self).resets@,
            final(self).logins@ == old(self).logins@,
    {
        let i = (user.0 - 1) as usize;
        self.users.set(i, LocalUser { id: user, password_encrypted: new_hash });
    }
}

} // verus!
