//! Login, refresh rotation, the per-request gate, and the user lookups.

use estate_auth::auth::{check_request, extract_bearer, AuthUser, RequireRole, Role};
use estate_auth::error::ApiError;
use estate_auth::handlers::{
    create_user, get_profile, get_user, get_users_by_role, list_users, login, refresh_token,
    RefreshToken,
};
use estate_auth::models::{LoginCredentials, NewUser, UserRole};
use estate_auth::store::UserStore;
use estate_auth::token::validate_token;

const SECRET: &[u8] = b"test-signing-secret";
const NOW: i64 = 1_700_000_000;

fn new_user(email: &str, password: &str, role: UserRole) -> NewUser {
    NewUser {
        email: email.to_string(),
        password: password.to_string(),
        full_name: "Someone".to_string(),
        phone: None,
        role,
    }
}

fn credentials(email: &str, password: &str) -> LoginCredentials {
    LoginCredentials { email: email.to_string(), password: password.to_string() }
}

/// A signed token with an arbitrary role claim, as another issuer
/// sharing the secret could mint it.
fn token_with_role(sub: i64, role: &str, now: i64) -> String {
    let mut claims = serde_json::Map::new();
    claims.insert("sub".to_string(), serde_json::Value::from(sub));
    claims.insert("iat".to_string(), serde_json::Value::from(now));
    claims.insert("exp".to_string(), serde_json::Value::from(now + 3600));
    claims.insert("role".to_string(), serde_json::Value::from(role));
    jsonwebtoken::encode(
        &jsonwebtoken::Header::default(),
        &serde_json::Value::Object(claims),
        &jsonwebtoken::EncodingKey::from_secret(SECRET),
    )
    .expect("encoding")
}

#[test]
fn create_user_assigns_fresh_ids_and_hashes_the_password() {
    let mut store = UserStore::new();
    let first = create_user(&mut store, &new_user("a@example.com", "pw-a", UserRole::Buyer))
        .expect("first user");
    let second = create_user(&mut store, &new_user("b@example.com", "pw-b", UserRole::Agent))
        .expect("second user");
    assert_eq!(first.id, Some(1));
    assert_eq!(second.id, Some(2));
    assert_eq!(first.verified, Some(false));
    // The stored digest is a bcrypt digest, never the plaintext.
    assert_eq!(first.password_hash.len(), 60);
    assert!(first.password_hash.starts_with("$2"));
    assert_ne!(first.password_hash, "pw-a");
}

#[test]
fn login_issues_a_token_pair_for_the_matching_user() {
    let mut store = UserStore::new();
    create_user(&mut store, &new_user("a@example.com", "pw-a", UserRole::Agent)).expect("user");
    let response = login(&store, &credentials("a@example.com", "pw-a"), SECRET, NOW)
        .expect("login");
    assert_eq!(response.user.id, Some(1));
    assert_eq!(response.user.email, "a@example.com");
    let access = validate_token(&response.token, SECRET, NOW + 1).expect("access claims");
    assert_eq!(access.sub, 1);
    assert_eq!(access.role, "agent");
    let refresh = validate_token(&response.refresh_token, SECRET, NOW + 1).expect("refresh");
    assert_eq!(refresh.sub, 1);
}

#[test]
fn login_rejects_a_wrong_password() {
    let mut store = UserStore::new();
    create_user(&mut store, &new_user("a@example.com", "pw-a", UserRole::Buyer)).expect("user");
    match login(&store, &credentials("a@example.com", "not-pw-a"), SECRET, NOW) {
        Err(ApiError::AuthenticationError(msg)) => assert_eq!(msg, "Invalid credentials"),
        other => panic!("expected an authentication error, got {:?}", other),
    }
}

#[test]
fn login_rejects_an_unknown_email_with_the_same_message() {
    let store = UserStore::new();
    match login(&store, &credentials("nobody@example.com", "pw"), SECRET, NOW) {
        Err(ApiError::AuthenticationError(msg)) => assert_eq!(msg, "Invalid credentials"),
        other => panic!("expected an authentication error, got {:?}", other),
    }
}

#[test]
fn refresh_reflects_the_current_stored_role() {
    let mut store = UserStore::new();
    create_user(&mut store, &new_user("a@example.com", "pw-a", UserRole::Tenant)).expect("user");
    let response = login(&store, &credentials("a@example.com", "pw-a"), SECRET, NOW)
        .expect("login");
    let old_access = validate_token(&response.token, SECRET, NOW + 1).expect("claims");
    assert_eq!(old_access.role, "tenant");

    // The role changes in storage after the old pair was issued.
    store.users[0].role = UserRole::Agent;

    let rotated = refresh_token(
        &store,
        &RefreshToken { token: response.refresh_token.clone() },
        SECRET,
        NOW + 100,
    )
    .expect("rotation");
    let new_access = validate_token(&rotated.token, SECRET, NOW + 101).expect("claims");
    assert_eq!(new_access.sub, 1);
    assert_eq!(new_access.role, "agent");
    // The new refresh token is itself independently valid.
    let new_refresh = validate_token(&rotated.refresh_token, SECRET, NOW + 101).expect("claims");
    assert_eq!(new_refresh.sub, 1);
    assert_eq!(new_refresh.role, "agent");
}

#[test]
fn refresh_rejects_an_invalid_token() {
    let store = UserStore::new();
    match refresh_token(&store, &RefreshToken { token: "garbage".to_string() }, SECRET, NOW) {
        Err(ApiError::AuthenticationError(msg)) => assert_eq!(msg, "Invalid refresh token"),
        other => panic!("expected an authentication error, got {:?}", other),
    }
}

#[test]
fn refresh_rejects_a_token_for_a_deleted_user() {
    let mut store = UserStore::new();
    create_user(&mut store, &new_user("a@example.com", "pw-a", UserRole::Buyer)).expect("user");
    let response = login(&store, &credentials("a@example.com", "pw-a"), SECRET, NOW)
        .expect("login");
    store.users.clear();
    match refresh_token(&store, &RefreshToken { token: response.refresh_token }, SECRET, NOW + 1) {
        Err(ApiError::AuthenticationError(msg)) => assert_eq!(msg, "User not found"),
        other => panic!("expected an authentication error, got {:?}", other),
    }
}

#[test]
fn extract_bearer_parses_only_the_bearer_shape() {
    assert_eq!(extract_bearer("Bearer abc.def.ghi").as_deref(), Some("abc.def.ghi"));
    assert_eq!(extract_bearer("Bearer ").as_deref(), Some(""));
    assert_eq!(extract_bearer("bearer abc"), None);
    assert_eq!(extract_bearer("Token abc"), None);
    assert_eq!(extract_bearer("Bearer"), None);
    assert_eq!(extract_bearer(""), None);
}

#[test]
fn gate_rejects_a_missing_or_malformed_header() {
    match check_request(None, None, SECRET, NOW) {
        Err(ApiError::AuthenticationError(msg)) => {
            assert_eq!(msg, "Invalid authorization header");
        }
        other => panic!("expected an authentication error, got {:?}", other),
    }
    let header = "Basic dXNlcjpwdw==".to_string();
    match check_request(Some(&header), None, SECRET, NOW) {
        Err(ApiError::AuthenticationError(msg)) => {
            assert_eq!(msg, "Invalid authorization header");
        }
        other => panic!("expected an authentication error, got {:?}", other),
    }
}

#[test]
fn gate_rejects_an_expired_or_forged_token() {
    let header = format!("Bearer {}", token_with_role(1, "admin", NOW - 7200));
    match check_request(Some(&header), None, SECRET, NOW) {
        Err(ApiError::AuthenticationError(msg)) => assert_eq!(msg, "Invalid token"),
        other => panic!("expected an authentication error, got {:?}", other),
    }
    let header = format!("Bearer {}", token_with_role(1, "admin", NOW));
    assert!(check_request(Some(&header), None, b"other-secret", NOW + 1).is_err());
}

#[test]
fn end_to_end_login_then_gate() {
    let mut store = UserStore::new();
    create_user(&mut store, &new_user("a@example.com", "pw-a", UserRole::Agent)).expect("user");

    // Login with correct credentials: both tokens come back.
    let response = login(&store, &credentials("a@example.com", "pw-a"), SECRET, NOW)
        .expect("login");
    assert!(!response.token.is_empty());
    assert!(!response.refresh_token.is_empty());

    // The access token on a route requiring Agent: forwarded, with the
    // identity attached.
    let header = format!("Bearer {}", response.token);
    let identity = check_request(Some(&header), Some(&RequireRole(Role::Agent)), SECRET, NOW + 1)
        .expect("forwarded");
    assert_eq!(identity.user_id, 1);
    assert_eq!(identity.role, "agent");

    // An identity whose role is plain `user` on the same route: a
    // role too low in the hierarchy, rejected as forbidden.
    let low = format!("Bearer {}", token_with_role(1, "user", NOW));
    match check_request(Some(&low), Some(&RequireRole(Role::Agent)), SECRET, NOW + 1) {
        Err(ApiError::AuthorizationError(msg)) => {
            assert_eq!(msg, "Insufficient permissions");
        }
        other => panic!("expected an authorization error, got {:?}", other),
    }

    // The same subject as an agent again: forwarded.
    let high = format!("Bearer {}", token_with_role(1, "agent", NOW));
    assert!(check_request(Some(&high), Some(&RequireRole(Role::Agent)), SECRET, NOW + 1).is_ok());
}

#[test]
fn lookups_return_the_stored_records() {
    let mut store = UserStore::new();
    create_user(&mut store, &new_user("a@example.com", "pw-a", UserRole::Buyer)).expect("a");
    create_user(&mut store, &new_user("b@example.com", "pw-b", UserRole::Agent)).expect("b");
    create_user(&mut store, &new_user("c@example.com", "pw-c", UserRole::Agent)).expect("c");

    let b = get_user(&store, 2).expect("user 2");
    assert_eq!(b.email, "b@example.com");
    assert!(matches!(get_user(&store, 99), Err(ApiError::NotFound)));

    let identity = AuthUser { user_id: 3, role: "agent".to_string() };
    let c = get_profile(&store, &identity).expect("profile");
    assert_eq!(c.email, "c@example.com");
    let gone = AuthUser { user_id: 42, role: "agent".to_string() };
    assert!(matches!(get_profile(&store, &gone), Err(ApiError::NotFound)));

    let all = list_users(&store);
    assert_eq!(all.len(), 3);
    assert_eq!(all[0].email, "a@example.com");

    let agents = get_users_by_role(&store, UserRole::Agent);
    assert_eq!(agents.len(), 2);
    assert_eq!(agents[0].email, "b@example.com");
    assert_eq!(agents[1].email, "c@example.com");
}

#[test]
fn errors_map_to_their_status_codes() {
    assert_eq!(ApiError::DatabaseError("detail".to_string()).status_code(), 500);
    assert_eq!(ApiError::NotFound.status_code(), 404);
    assert_eq!(ApiError::ValidationError("v".to_string()).status_code(), 400);
    assert_eq!(ApiError::AuthenticationError("a".to_string()).status_code(), 401);
    assert_eq!(ApiError::AuthorizationError("z".to_string()).status_code(), 403);
    // A store failure never exposes internal detail.
    assert_eq!(ApiError::DatabaseError("detail".to_string()).message(), "Database error");
    assert_eq!(ApiError::NotFound.message(), "Not found");
    assert_eq!(ApiError::AuthenticationError("a".to_string()).message(), "a");
}
