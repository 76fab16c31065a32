//! The password-reset lifecycle: request, single use, expiry.

use estate_auth::error::ApiError;
use estate_auth::handlers::{
    login, request_password_reset, reset_password, PasswordResetConfirm, PasswordResetRequest,
    RESET_TOKEN_LIFETIME,
};
use estate_auth::models::{LoginCredentials, User, UserRole};
use estate_auth::store::UserStore;

const SECRET: &[u8] = b"test-signing-secret";
const NOW: i64 = 1_700_000_000;

fn user_with_reset(id: i64, email: &str, token: Option<&str>, expires: Option<i64>) -> User {
    User {
        id: Some(id),
        email: email.to_string(),
        password_hash: bcrypt::hash(b"old-password", 4).expect("hashing"),
        full_name: "Someone".to_string(),
        phone: None,
        role: UserRole::Tenant,
        verified: Some(true),
        profile_image_url: None,
        created_at: None,
        updated_at: None,
        reset_token: token.map(|t| t.to_string()),
        reset_token_expires: expires,
    }
}

fn store_of(users: Vec<User>) -> UserStore {
    let next_id = users.len() as i64 + 1;
    UserStore { users, next_id }
}

#[test]
fn request_sets_a_fresh_token_with_one_hour_expiry() {
    let mut store = store_of(vec![user_with_reset(1, "a@example.com", None, None)]);
    let request = PasswordResetRequest { email: "a@example.com".to_string() };
    assert!(request_password_reset(&mut store, &request, NOW).is_ok());
    let user = &store.users[0];
    let token = user.reset_token.as_ref().expect("a token was set");
    assert_eq!(token.len(), 36);
    assert_eq!(user.reset_token_expires, Some(NOW + RESET_TOKEN_LIFETIME));
    assert_eq!(RESET_TOKEN_LIFETIME, 3600);
}

#[test]
fn request_for_an_unknown_email_answers_ok_and_changes_nothing() {
    let mut store = store_of(vec![user_with_reset(1, "a@example.com", None, None)]);
    let request = PasswordResetRequest { email: "nobody@example.com".to_string() };
    assert!(request_password_reset(&mut store, &request, NOW).is_ok());
    assert!(store.users[0].reset_token.is_none());
    assert!(store.users[0].reset_token_expires.is_none());
}

#[test]
fn a_new_request_overwrites_the_old_token() {
    let mut store = store_of(vec![user_with_reset(1, "a@example.com", Some("old-token"), Some(NOW + 10))]);
    let request = PasswordResetRequest { email: "a@example.com".to_string() };
    assert!(request_password_reset(&mut store, &request, NOW).is_ok());
    let token = store.users[0].reset_token.clone().expect("a token");
    assert_ne!(token, "old-token");
    assert_eq!(store.users[0].reset_token_expires, Some(NOW + RESET_TOKEN_LIFETIME));
}

#[test]
fn confirm_updates_the_password_and_clears_the_token() {
    let mut store = store_of(vec![user_with_reset(1, "a@example.com", Some("tok-1"), Some(NOW + 60))]);
    let confirm = PasswordResetConfirm {
        token: "tok-1".to_string(),
        new_password: "brand-new-password".to_string(),
    };
    assert!(reset_password(&mut store, &confirm, NOW).is_ok());
    assert!(store.users[0].reset_token.is_none());
    assert!(store.users[0].reset_token_expires.is_none());

    // The stored digest now verifies the new password: logging in with
    // it succeeds, and the old password is refused.
    let good = LoginCredentials {
        email: "a@example.com".to_string(),
        password: "brand-new-password".to_string(),
    };
    assert!(login(&store, &good, SECRET, NOW).is_ok());
    let stale = LoginCredentials {
        email: "a@example.com".to_string(),
        password: "old-password".to_string(),
    };
    assert!(login(&store, &stale, SECRET, NOW).is_err());
}

#[test]
fn a_consumed_token_fails_the_second_confirmation() {
    let mut store = store_of(vec![user_with_reset(1, "a@example.com", Some("tok-1"), Some(NOW + 60))]);
    let confirm = PasswordResetConfirm {
        token: "tok-1".to_string(),
        new_password: "first-new-password".to_string(),
    };
    assert!(reset_password(&mut store, &confirm, NOW).is_ok());

    // Immediately after: the same token must fail, not succeed twice.
    let again = PasswordResetConfirm {
        token: "tok-1".to_string(),
        new_password: "second-new-password".to_string(),
    };
    match reset_password(&mut store, &again, NOW) {
        Err(ApiError::ValidationError(msg)) => {
            assert_eq!(msg, "Invalid or expired reset token");
        }
        other => panic!("expected the generic rejection, got {:?}", other),
    }
    // And the second password never took effect.
    let second = LoginCredentials {
        email: "a@example.com".to_string(),
        password: "second-new-password".to_string(),
    };
    assert!(login(&store, &second, SECRET, NOW).is_err());
}

#[test]
fn an_expired_token_is_rejected_even_though_it_matches() {
    let mut store = store_of(vec![user_with_reset(1, "a@example.com", Some("tok-1"), Some(NOW))]);
    // Stored expiry is exactly NOW: not strictly in the future, so dead.
    let confirm = PasswordResetConfirm {
        token: "tok-1".to_string(),
        new_password: "whatever".to_string(),
    };
    match reset_password(&mut store, &confirm, NOW) {
        Err(ApiError::ValidationError(msg)) => {
            assert_eq!(msg, "Invalid or expired reset token");
        }
        other => panic!("expected the generic rejection, got {:?}", other),
    }
    // The record is untouched: same token, same expiry, old password.
    assert_eq!(store.users[0].reset_token.as_deref(), Some("tok-1"));
    assert_eq!(store.users[0].reset_token_expires, Some(NOW));
}

#[test]
fn an_unknown_token_is_rejected_with_the_same_message() {
    let mut store = store_of(vec![user_with_reset(1, "a@example.com", Some("tok-1"), Some(NOW + 60))]);
    let confirm = PasswordResetConfirm {
        token: "tok-2".to_string(),
        new_password: "whatever".to_string(),
    };
    match reset_password(&mut store, &confirm, NOW) {
        Err(ApiError::ValidationError(msg)) => {
            assert_eq!(msg, "Invalid or expired reset token");
        }
        other => panic!("expected the generic rejection, got {:?}", other),
    }
}

#[test]
fn request_then_confirm_round_trip() {
    let mut store = store_of(vec![user_with_reset(1, "a@example.com", None, None)]);
    let request = PasswordResetRequest { email: "a@example.com".to_string() };
    request_password_reset(&mut store, &request, NOW).expect("request");
    let token = store.users[0].reset_token.clone().expect("token set");
    let confirm = PasswordResetConfirm { token, new_password: "fresh-password".to_string() };
    assert!(reset_password(&mut store, &confirm, NOW + RESET_TOKEN_LIFETIME - 1).is_ok());
    let good = LoginCredentials {
        email: "a@example.com".to_string(),
        password: "fresh-password".to_string(),
    };
    assert!(login(&store, &good, SECRET, NOW).is_ok());
}
