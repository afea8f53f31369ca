use credentials::error::CredentialError;
use credentials::policy::{password_length_check, CredentialConfig, RESET_TOKEN_TTL_SECONDS};
use credentials::service::{
    change_password, finish_password_change, redeem_reset, request_reset, ChangePassword,
    PasswordChangeAfterReset,
};
use credentials::store::{CredentialStore, LocalUserId, LoginToken, PasswordResetRequest};

const NOW: i64 = 1_700_000_000;

fn config() -> CredentialConfig {
    CredentialConfig {
        min_password_length: 1,
        max_password_length: 60,
        max_recent_resets: None,
        hash_cost: 4,
    }
}

fn store_with_user(password: &str) -> (CredentialStore, LocalUserId, String) {
    let mut store = CredentialStore::new();
    let hash = bcrypt::hash(password, 4).unwrap();
    let id = store.create_user(hash.clone()).unwrap();
    (store, id, hash)
}

fn open_session(store: &mut CredentialStore, user: LocalUserId, token: &str) {
    LoginToken::create(store, user, token.to_string(), NOW);
}

fn session_valid(store: &CredentialStore, token: &str) -> bool {
    store.logins.iter().any(|l| l.valid && l.token == token)
}

fn stored_hash(store: &CredentialStore, user: LocalUserId) -> String {
    store.password_hash(user).unwrap().clone()
}

#[test]
fn test_password_reset() {
    let mut store = CredentialStore::new();
    let user = store.create_user("pass".to_string()).unwrap();

    let token = "nope";
    let inserted = PasswordResetRequest::create(&mut store, user, token.to_string(), NOW).unwrap();

    let read = PasswordResetRequest::read(&mut store, token, NOW).unwrap();
    assert_eq!(inserted.id, read.id);
    assert_eq!(inserted.local_user_id, read.local_user_id);
    assert_eq!(inserted.token, read.token);
    assert_eq!(inserted.published, read.published);

    let reset_count = PasswordResetRequest::recent_count(&store, user, NOW);
    assert_eq!(1, reset_count);

    let read_again = PasswordResetRequest::read(&mut store, token, NOW);
    assert!(read_again.is_none());
}

#[test]
fn change_password_replaces_hash_and_revokes_sessions() {
    let (mut store, user, h0) = store_with_user("pass");
    open_session(&mut store, user, "s1");
    open_session(&mut store, user, "s2");
    let data = ChangePassword {
        new_password: "pass2".to_string(),
        new_password_verify: "pass2".to_string(),
        old_password: "pass".to_string(),
    };
    let resp = change_password(&mut store, user, &data, "s3".to_string(), NOW, &config()).unwrap();
    assert_eq!(resp.jwt, Some("s3".to_string()));
    assert!(!resp.verify_email_sent);
    assert!(!resp.registration_created);
    let h1 = stored_hash(&store, user);
    assert_ne!(h1, h0);
    assert!(bcrypt::verify("pass2", &h1).unwrap());
    assert!(!session_valid(&store, "s1"));
    assert!(!session_valid(&store, "s2"));
    assert!(session_valid(&store, "s3"));
}

#[test]
fn change_password_keeps_other_users_sessions() {
    let (mut store, user, _) = store_with_user("pass");
    let other = store.create_user(bcrypt::hash("other", 4).unwrap()).unwrap();
    open_session(&mut store, user, "mine");
    open_session(&mut store, other, "theirs");
    let data = ChangePassword {
        new_password: "pass2".to_string(),
        new_password_verify: "pass2".to_string(),
        old_password: "pass".to_string(),
    };
    change_password(&mut store, user, &data, "fresh".to_string(), NOW, &config()).unwrap();
    assert!(!session_valid(&store, "mine"));
    assert!(session_valid(&store, "theirs"));
}

#[test]
fn change_password_wrong_old_password() {
    let (mut store, user, h0) = store_with_user("pass");
    open_session(&mut store, user, "s1");
    let data = ChangePassword {
        new_password: "pass2".to_string(),
        new_password_verify: "pass2".to_string(),
        old_password: "wrong".to_string(),
    };
    let r = change_password(&mut store, user, &data, "s2".to_string(), NOW, &config());
    assert_eq!(r.unwrap_err(), CredentialError::IncorrectLogin);
    assert_eq!(stored_hash(&store, user), h0);
    assert!(session_valid(&store, "s1"));
}

#[test]
fn change_password_unreadable_hash_is_incorrect_login() {
    let mut store = CredentialStore::new();
    let user = store.create_user("pass".to_string()).unwrap();
    let data = ChangePassword {
        new_password: "pass2".to_string(),
        new_password_verify: "pass2".to_string(),
        old_password: "pass".to_string(),
    };
    let r = change_password(&mut store, user, &data, "s".to_string(), NOW, &config());
    assert_eq!(r.unwrap_err(), CredentialError::IncorrectLogin);
}

#[test]
fn change_password_mismatched_confirmation() {
    let (mut store, user, h0) = store_with_user("pass");
    let data = ChangePassword {
        new_password: "pass2".to_string(),
        new_password_verify: "pass3".to_string(),
        old_password: "pass".to_string(),
    };
    let r = change_password(&mut store, user, &data, "s".to_string(), NOW, &config());
    assert_eq!(r.unwrap_err(), CredentialError::PasswordsDoNotMatch);
    assert_eq!(stored_hash(&store, user), h0);
}

#[test]
fn change_password_weak_password() {
    let (mut store, user, h0) = store_with_user("pass");
    let strict = CredentialConfig { min_password_length: 10, ..config() };
    let data = ChangePassword {
        new_password: "short".to_string(),
        new_password_verify: "short".to_string(),
        old_password: "pass".to_string(),
    };
    let r = change_password(&mut store, user, &data, "s".to_string(), NOW, &strict);
    assert_eq!(r.unwrap_err(), CredentialError::WeakPassword);
    assert_eq!(stored_hash(&store, user), h0);
}

#[test]
fn change_password_hashing_failure() {
    let (mut store, user, h0) = store_with_user("pass");
    let bad_cost = CredentialConfig { hash_cost: 99, ..config() };
    let data = ChangePassword {
        new_password: "pass2".to_string(),
        new_password_verify: "pass2".to_string(),
        old_password: "pass".to_string(),
    };
    let r = change_password(&mut store, user, &data, "s".to_string(), NOW, &bad_cost);
    assert_eq!(r.unwrap_err(), CredentialError::StoreUnavailable);
    assert_eq!(stored_hash(&store, user), h0);
}

#[test]
fn password_length_bounds() {
    let c = CredentialConfig { min_password_length: 3, max_password_length: 5, ..config() };
    assert_eq!(password_length_check("ab", &c), Err(CredentialError::WeakPassword));
    assert_eq!(password_length_check("abc", &c), Ok(()));
    assert_eq!(password_length_check("abcde", &c), Ok(()));
    assert_eq!(password_length_check("abcdef", &c), Err(CredentialError::WeakPassword));
    assert_eq!(password_length_check("ééé", &c), Ok(()));
}

#[test]
fn redeem_reset_then_reuse_fails() {
    let (mut store, user, h0) = store_with_user("pass");
    open_session(&mut store, user, "old");
    assert_eq!(request_reset(&mut store, user, "T".to_string(), NOW, &config()), Ok(0));
    let data = PasswordChangeAfterReset {
        password: "newpass".to_string(),
        password_verify: "newpass".to_string(),
    };
    let resp = redeem_reset(&mut store, "T", &data, "s1".to_string(), NOW + 10, &config()).unwrap();
    assert_eq!(resp.jwt, Some("s1".to_string()));
    assert!(!resp.verify_email_sent);
    assert!(!resp.registration_created);
    let h1 = stored_hash(&store, user);
    assert_ne!(h1, h0);
    assert!(bcrypt::verify("newpass", &h1).unwrap());
    assert!(!session_valid(&store, "old"));
    assert!(session_valid(&store, "s1"));
    let again = redeem_reset(&mut store, "T", &data, "s2".to_string(), NOW + 20, &config());
    assert_eq!(again.unwrap_err(), CredentialError::TokenInvalidOrExpired);
    assert_eq!(stored_hash(&store, user), h1);
}

#[test]
fn two_redemptions_of_one_token_exactly_one_succeeds() {
    let (mut store, user, _) = store_with_user("pass");
    request_reset(&mut store, user, "T".to_string(), NOW, &config()).unwrap();
    let data = PasswordChangeAfterReset {
        password: "newpass".to_string(),
        password_verify: "newpass".to_string(),
    };
    let a = redeem_reset(&mut store, "T", &data, "a".to_string(), NOW, &config());
    let b = redeem_reset(&mut store, "T", &data, "b".to_string(), NOW, &config());
    assert_eq!([a.is_ok(), b.is_ok()].iter().filter(|x| **x).count(), 1);
    assert_eq!(b.unwrap_err(), CredentialError::TokenInvalidOrExpired);
}

#[test]
fn redeem_expired_token_fails() {
    let (mut store, user, h0) = store_with_user("pass");
    request_reset(&mut store, user, "T".to_string(), NOW, &config()).unwrap();
    let data = PasswordChangeAfterReset {
        password: "newpass".to_string(),
        password_verify: "newpass".to_string(),
    };
    let later = NOW + RESET_TOKEN_TTL_SECONDS;
    let r = redeem_reset(&mut store, "T", &data, "s".to_string(), later, &config());
    assert_eq!(r.unwrap_err(), CredentialError::TokenInvalidOrExpired);
    assert_eq!(stored_hash(&store, user), h0);
    let just_in_time = NOW + RESET_TOKEN_TTL_SECONDS - 1;
    assert!(redeem_reset(&mut store, "T", &data, "s".to_string(), just_in_time, &config()).is_ok());
}

#[test]
fn redeem_unknown_token_fails() {
    let (mut store, user, _) = store_with_user("pass");
    request_reset(&mut store, user, "T".to_string(), NOW, &config()).unwrap();
    let data = PasswordChangeAfterReset {
        password: "newpass".to_string(),
        password_verify: "newpass".to_string(),
    };
    let r = redeem_reset(&mut store, "U", &data, "s".to_string(), NOW, &config());
    assert_eq!(r.unwrap_err(), CredentialError::TokenInvalidOrExpired);
}

#[test]
fn redeem_mismatch_uses_up_token_and_keeps_hash() {
    let (mut store, user, h0) = store_with_user("pass");
    request_reset(&mut store, user, "T".to_string(), NOW, &config()).unwrap();
    let data = PasswordChangeAfterReset {
        password: "newpass".to_string(),
        password_verify: "otherpass".to_string(),
    };
    let r = redeem_reset(&mut store, "T", &data, "s".to_string(), NOW, &config());
    assert_eq!(r.unwrap_err(), CredentialError::PasswordsDoNotMatch);
    assert_eq!(stored_hash(&store, user), h0);
    assert!(!store.resets[0].valid);
}

#[test]
fn redeem_weak_password() {
    let (mut store, user, h0) = store_with_user("pass");
    request_reset(&mut store, user, "T".to_string(), NOW, &config()).unwrap();
    let strict = CredentialConfig { min_password_length: 10, ..config() };
    let data = PasswordChangeAfterReset {
        password: "newpass".to_string(),
        password_verify: "newpass".to_string(),
    };
    let r = redeem_reset(&mut store, "T", &data, "s".to_string(), NOW, &strict);
    assert_eq!(r.unwrap_err(), CredentialError::WeakPassword);
    assert_eq!(stored_hash(&store, user), h0);
}

#[test]
fn recent_count_counts_window_only() {
    let (mut store, user, _) = store_with_user("pass");
    let other = store.create_user("x".to_string()).unwrap();
    for (i, t) in ["a", "b", "c"].iter().enumerate() {
        let c = request_reset(&mut store, user, t.to_string(), NOW + i as i64, &config()).unwrap();
        assert_eq!(c, i as i64);
    }
    request_reset(&mut store, other, "d".to_string(), NOW, &config()).unwrap();
    assert_eq!(PasswordResetRequest::recent_count(&store, user, NOW + 2), 3);
    assert_eq!(PasswordResetRequest::recent_count(&store, other, NOW + 2), 1);
    let after = NOW + 2 + RESET_TOKEN_TTL_SECONDS;
    assert_eq!(PasswordResetRequest::recent_count(&store, user, after), 0);
}

#[test]
fn recent_count_includes_used_requests() {
    let (mut store, user, _) = store_with_user("pass");
    request_reset(&mut store, user, "a".to_string(), NOW, &config()).unwrap();
    PasswordResetRequest::read(&mut store, "a", NOW).unwrap();
    assert_eq!(PasswordResetRequest::recent_count(&store, user, NOW), 1);
}

#[test]
fn request_reset_rate_limited() {
    let (mut store, user, _) = store_with_user("pass");
    let limited = CredentialConfig { max_recent_resets: Some(1), ..config() };
    assert_eq!(request_reset(&mut store, user, "a".to_string(), NOW, &limited), Ok(0));
    assert_eq!(request_reset(&mut store, user, "b".to_string(), NOW, &limited), Ok(1));
    let r = request_reset(&mut store, user, "c".to_string(), NOW, &limited);
    assert_eq!(r, Err(CredentialError::TooManyRequests));
    assert_eq!(store.resets.len(), 2);
}

#[test]
fn request_reset_store_refusals() {
    let (mut store, user, _) = store_with_user("pass");
    request_reset(&mut store, user, "a".to_string(), NOW, &config()).unwrap();
    let dup = request_reset(&mut store, user, "a".to_string(), NOW, &config());
    assert_eq!(dup, Err(CredentialError::StoreUnavailable));
    let unknown = request_reset(&mut store, LocalUserId(7), "z".to_string(), NOW, &config());
    assert_eq!(unknown, Err(CredentialError::StoreUnavailable));
    assert_eq!(store.resets.len(), 1);
}

#[test]
fn finish_password_change_without_hash() {
    let (mut store, user, h0) = store_with_user("pass");
    open_session(&mut store, user, "s1");
    let r = finish_password_change(&mut store, user, None, "s2".to_string(), NOW);
    assert_eq!(r.unwrap_err(), CredentialError::StoreUnavailable);
    assert_eq!(stored_hash(&store, user), h0);
    assert!(session_valid(&store, "s1"));
}

#[test]
fn finish_password_change_with_hash() {
    let (mut store, user, _) = store_with_user("pass");
    open_session(&mut store, user, "s1");
    let r = finish_password_change(&mut store, user, Some("H1".to_string()), "s2".to_string(), NOW);
    assert!(r.is_ok());
    assert_eq!(stored_hash(&store, user), "H1");
    assert!(!session_valid(&store, "s1"));
    assert!(session_valid(&store, "s2"));
}
