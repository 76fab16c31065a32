//! Handler-level flows: login, refresh-token rotation, the
//! password-reset lifecycle, and the user lookups around them. Each
//! takes the store and the request values, plus the signing secret and
//! the current time as explicit configuration, and returns the response
//! value or the error the HTTP layer surfaces.

use vstd::prelude::*;

use crate::auth::{AuthResponse, AuthUser};
use crate::error::ApiError;
use crate::models::{clone_opt_string, LoginCredentials, NewUser, User, UserRole};
use crate::models::spec_role_str;
use crate::password::{bcrypt_matches, password_hash, password_verify, HASH_COST};
use crate::store::{
    lemma_find_by_email_some, lemma_find_by_id_some, spec_find_by_email, spec_find_by_id,
    spec_find_reset, with_new_password, with_reset_token, UserStore,
};
use crate::token::{
    create_refresh_token, create_token, issued_token_ok, spec_validate, validate_token,
    ACCESS_TOKEN_LIFETIME, REFRESH_TOKEN_LIFETIME,
};

verus! {

/// Lifetime of a password-reset token: 1 hour, in seconds.
pub const RESET_TOKEN_LIFETIME: i64 = 3600;

/// Request body of the password-reset request endpoint.
#[derive(Debug)]
pub struct PasswordResetRequest {
    pub email: String,
}

/// Request body of the password-reset confirmation endpoint.
#[derive(Debug)]
pub struct PasswordResetConfirm {
    pub token: String,
    pub new_password: String,
}

/// Request body of the refresh endpoint.
#[derive(Debug)]
pub struct RefreshToken {
    pub token: String,
}

/// Relies on uuid::Uuid::new_v4 rendered in the hyphenated form: a
/// freshly drawn random token, always 36 characters.
#[verifier::external_body]
fn generate_reset_token() -> (r: String)
    ensures
        r@.len() == 36,
{
    uuid::Uuid::new_v4().to_string()
}

/// Log a user in: look the account up by email, check the password
/// against the stored digest, and issue a fresh token pair. Both a
/// missing account and a wrong password answer with the same
/// authentication error; a matching password always succeeds, with the
/// pair issued exactly for the stored record whose email matched first.
pub fn login(
    store: &UserStore,
    credentials: &LoginCredentials,
    secret: &[u8],
    now: i64,
) -> (r: Result<AuthResponse, ApiError>)
    requires
        store.wf(),
        now + REFRESH_TOKEN_LIFETIME <= i64::MAX,
        now + ACCESS_TOKEN_LIFETIME <= i64::MAX,
    ensures
        (spec_find_by_email(store.users@, credentials.email@) is None ==> (r matches Err(e)
            && e matches ApiError::AuthenticationError(m) && m@ == "Invalid credentials"@)),
        ((spec_find_by_email(store.users@, credentials.email@) matches Some(i) && !bcrypt_matches(
            credentials.password@,
            store.users@[i].password_hash@,
        )) ==> (r matches Err(e) && e matches ApiError::AuthenticationError(m) && m@
            == "Invalid credentials"@)),
        (r matches Ok(a) ==> (spec_find_by_email(store.users@, credentials.email@) matches Some(i)
            && bcrypt_matches(credentials.password@, store.users@[i].password_hash@) && a.user
            == store.users@[i] && issued_token_ok(
            a.token@,
            secret@,
            store.users@[i].id->0 as int,
            now as int,
            now + ACCESS_TOKEN_LIFETIME,
            spec_role_str(store.users@[i].role),
        ) && issued_token_ok(
            a.refresh_token@,
            secret@,
            store.users@[i].id->0 as int,
            now as int,
            now + REFRESH_TOKEN_LIFETIME,
            spec_role_str(store.users@[i].role),
        ))),
        ((spec_find_by_email(store.users@, credentials.email@) matches Some(i) && bcrypt_matches(
            credentials.password@,
            store.users@[i].password_hash@,
        )) ==> r is Ok),
{
    let i = match store.find_by_email(&credentials.email) {
        Some(i) => i,
        None => {
            return Err(ApiError::AuthenticationError(String::from_str("Invalid credentials")));
        },
    };
    proof {
        lemma_find_by_email_some(store.users@, credentials.email@);
    }
    let user = &store.users[i];
    if !password_verify(&credentials.password, &user.password_hash) {
        return Err(ApiError::AuthenticationError(String::from_str("Invalid credentials")));
    }
    let token = match create_token(user, secret, now) {
        Ok(t) => t,
        Err(e) => {
            return Err(e);
        },
    };
    let refresh_token = match create_refresh_token(user, secret, now) {
        Ok(t) => t,
        Err(e) => {
            return Err(e);
        },
    };
    Ok(AuthResponse { token, refresh_token, user: user.duplicate() })
}

/// Rotate a token pair: validate the presented refresh token, reload
/// the user it names, and issue a fresh pair from the record as stored
/// now — a role changed in storage since the old token was issued is
/// reflected in the new tokens, and the new refresh token is itself
/// independently valid for its full lifetime.
pub fn refresh_token(
    store: &UserStore,
    refresh: &RefreshToken,
    secret: &[u8],
    now: i64,
) -> (r: Result<AuthResponse, ApiError>)
    requires
        store.wf(),
        now + REFRESH_TOKEN_LIFETIME <= i64::MAX,
        now + ACCESS_TOKEN_LIFETIME <= i64::MAX,
    ensures
        (spec_validate(refresh.token@, secret@, now as int) is None ==> (r matches Err(e)
            && e matches ApiError::AuthenticationError(m) && m@ == "Invalid refresh token"@)),
        ((spec_validate(refresh.token@, secret@, now as int) matches Some(c) && spec_find_by_id(
            store.users@,
            c.0,
        ) is None) ==> (r matches Err(e) && e matches ApiError::AuthenticationError(m) && m@
            == "User not found"@)),
        (r matches Ok(a) ==> (spec_validate(refresh.token@, secret@, now as int) matches Some(c)
            && spec_find_by_id(store.users@, c.0) matches Some(i) && a.user == store.users@[i]
            && issued_token_ok(
            a.token@,
            secret@,
            store.users@[i].id->0 as int,
            now as int,
            now + ACCESS_TOKEN_LIFETIME,
            spec_role_str(store.users@[i].role),
        ) && issued_token_ok(
            a.refresh_token@,
            secret@,
            store.users@[i].id->0 as int,
            now as int,
            now + REFRESH_TOKEN_LIFETIME,
            spec_role_str(store.users@[i].role),
        ))),
        ((spec_validate(refresh.token@, secret@, now as int) matches Some(c) && spec_find_by_id(
            store.users@,
            c.0,
        ) matches Some(i)) ==> r is Ok),
{
    let claims = match validate_token(refresh.token.as_str(), secret, now) {
        Ok(c) => c,
        Err(_) => {
            return Err(ApiError::AuthenticationError(String::from_str("Invalid refresh token")));
        },
    };
    let i = match store.find_by_id(claims.sub) {
        Some(i) => i,
        None => {
            return Err(ApiError::AuthenticationError(String::from_str("User not found")));
        },
    };
    proof {
        lemma_find_by_id_some(store.users@, claims.sub as int);
    }
    let user = &store.users[i];
    let token = match create_token(user, secret, now) {
        Ok(t) => t,
        Err(e) => {
            return Err(e);
        },
    };
    let new_refresh = match create_refresh_token(user, secret, now) {
        Ok(t) => t,
        Err(e) => {
            return Err(e);
        },
    };
    Ok(AuthResponse { token, refresh_token: new_refresh, user: user.duplicate() })
}

/// A fresh reset token and its expiry written over the record at `i`;
/// the token is opaque and random, so only its length is pinned.
pub open spec fn reset_applied(
    pre: Seq<User>,
    post: Seq<User>,
    i: int,
    t: String,
    expires: i64,
) -> bool {
    &&& t@.len() == 36
    &&& post == pre.update(i, with_reset_token(pre[i], t, expires))
}

/// Begin a password reset: generate a random one-time token, stamp it
/// with a one-hour expiry, and persist both on the account with this
/// email — overwriting any earlier token, so at most one is live per
/// user. The answer is `Ok` whether or not the account exists, to
/// avoid leaking account existence; an unknown email changes nothing.
pub fn request_password_reset(
    store: &mut UserStore,
    request: &PasswordResetRequest,
    now: i64,
) -> (r: Result<(), ApiError>)
    requires
        now + RESET_TOKEN_LIFETIME <= i64::MAX,
    ensures
        r is Ok,
        (spec_find_by_email(old(store).users@, request.email@) is None ==> *final(store) == *old(
            store,
        )),
        (spec_find_by_email(old(store).users@, request.email@) matches Some(i) ==> (exists|
            t: String,
        |
            #[trigger] reset_applied(
                old(store).users@,
                final(store).users@,
                i,
                t,
                (now + RESET_TOKEN_LIFETIME) as i64,
            )) && final(store).next_id == old(store).next_id),
        (old(store).wf() ==> final(store).wf()),
{
    let token = generate_reset_token();
    let ghost gt = token;
    let expires_at = now + RESET_TOKEN_LIFETIME;
    let _found = store.set_reset_token(&request.email, token, expires_at);
    proof {
        if spec_find_by_email(old(store).users@, request.email@) is Some {
            let gi = spec_find_by_email(old(store).users@, request.email@)->0;
            assert(reset_applied(old(store).users@, store.users@, gi, gt, expires_at));
        }
    }
    Ok(())
}

/// The shape of a consumed reset at record `i`: the password hash is
/// replaced by a digest of the new password and both reset-token
/// fields are cleared, in the one update.
pub open spec fn password_reset_applied(
    pre: Seq<User>,
    post: Seq<User>,
    i: int,
    h: String,
    new_password: Seq<char>,
) -> bool {
    &&& bcrypt_matches(new_password, h@)
    &&& post == pre.update(i, with_new_password(pre[i], h))
}

/// Confirm a password reset: exactly when some record holds a live
/// (unexpired, matching) reset token, hash the new password and, in a
/// single conditional update, write the hash and clear the token. A
/// spent or expired token fails with the one generic message — never
/// distinguishing "not found" from "expired" — and changes nothing.
pub fn reset_password(
    store: &mut UserStore,
    reset: &PasswordResetConfirm,
    now: i64,
) -> (r: Result<(), ApiError>)
    ensures
        (spec_find_reset(old(store).users@, reset.token@, now as int) is None ==> (*final(store)
            == *old(store) && (r matches Err(e) && e matches ApiError::ValidationError(m) && m@
            == "Invalid or expired reset token"@))),
        (spec_find_reset(old(store).users@, reset.token@, now as int) matches Some(i) ==> (match r {
            Ok(u) => (exists|h: String|
                #[trigger] password_reset_applied(
                    old(store).users@,
                    final(store).users@,
                    i,
                    h,
                    reset.new_password@,
                )) && final(store).next_id == old(store).next_id,
            Err(e) => *final(store) == *old(store) && (e matches ApiError::ValidationError(m) && m@
                == "Password hashing failed"@),
        })),
        (old(store).wf() ==> final(store).wf()),
{
    if store.find_live_reset(&reset.token, now).is_none() {
        return Err(ApiError::ValidationError(String::from_str("Invalid or expired reset token")));
    }
    let hash = match password_hash(&reset.new_password, HASH_COST) {
        Ok(h) => h,
        Err(_) => {
            return Err(ApiError::ValidationError(String::from_str("Password hashing failed")));
        },
    };
    let ghost gh = hash;
    let _consumed = store.confirm_reset(&reset.token, now, hash);
    proof {
        let gi = spec_find_reset(old(store).users@, reset.token@, now as int)->0;
        assert(password_reset_applied(
            old(store).users@,
            store.users@,
            gi,
            gh,
            reset.new_password@,
        ));
    }
    Ok(())
}

/// The record `create_user` makes from a registration request: a fresh
/// id, the hashed password, not yet verified, no reset token.
pub open spec fn created_user(nu: NewUser, id: i64, h: String) -> User {
    User {
        id: Some(id),
        email: nu.email,
        password_hash: h,
        full_name: nu.full_name,
        phone: nu.phone,
        role: nu.role,
        verified: Some(false),
        profile_image_url: None,
        created_at: None,
        updated_at: None,
        reset_token: None,
        reset_token_expires: None,
    }
}

/// Register a user: hash the password and append a fresh record under
/// the next free id.
pub fn create_user(store: &mut UserStore, new_user: &NewUser) -> (r: Result<User, ApiError>)
    requires
        old(store).wf(),
        old(store).next_id < i64::MAX,
    ensures
        (r matches Ok(u) ==> (exists|h: String| #![auto]
            bcrypt_matches(new_user.password@, h@) && u == created_user(
                *new_user,
                old(store).next_id,
                h,
            )) && final(store).users@ == old(store).users@.push(u) && final(store).next_id == old(
            store,
        ).next_id + 1),
        (r matches Err(e) ==> *final(store) == *old(store) && (e matches ApiError::ValidationError(
            m,
        ) && m@ == "Password hashing failed"@)),
        final(store).wf(),
{
    let hash = match password_hash(&new_user.password, HASH_COST) {
        Ok(h) => h,
        Err(_) => {
            return Err(ApiError::ValidationError(String::from_str("Password hashing failed")));
        },
    };
    let ghost gh = hash;
    let user = User {
        id: Some(store.next_id),
        email: new_user.email.clone(),
        password_hash: hash,
        full_name: new_user.full_name.clone(),
        phone: clone_opt_string(&new_user.phone),
        role: new_user.role,
        verified: Some(false),
        profile_image_url: None,
        created_at: None,
        updated_at: None,
        reset_token: None,
        reset_token_expires: None,
    };
    let returned = user.duplicate();
    store.users.push(user);
    store.next_id = store.next_id + 1;
    proof {
        assert(returned == created_user(*new_user, old(store).next_id, gh));
        assert forall|i: int, j: int| 0 <= i < j < store.users@.len() implies (
        #[trigger] store.users@[i]).id != (#[trigger] store.users@[j]).id by {
            if j == store.users@.len() - 1 {
                assert(old(store).users@[i].id matches Some(x) && x < old(store).next_id);
            }
        }
    }
    Ok(returned)
}

/// Look a user up by id.
pub fn get_user(store: &UserStore, id: i64) -> (r: Result<User, ApiError>)
    ensures
        (spec_find_by_id(store.users@, id as int) is None ==> (r matches Err(e)
            && e matches ApiError::NotFound)),
        (r matches Ok(u) ==> (spec_find_by_id(store.users@, id as int) matches Some(i) && u
            == store.users@[i])),
        (spec_find_by_id(store.users@, id as int) is Some ==> r is Ok),
{
    match store.find_by_id(id) {
        Some(i) => {
            proof {
                lemma_find_by_id_some(store.users@, id as int);
            }
            Ok(store.users[i].duplicate())
        },
        None => Err(ApiError::NotFound),
    }
}

/// The profile of an authenticated identity: the stored record its
/// token named, which may have been deleted since issuance.
pub fn get_profile(store: &UserStore, auth_user: &AuthUser) -> (r: Result<User, ApiError>)
    ensures
        (spec_find_by_id(store.users@, auth_user.user_id as int) is None ==> (r matches Err(e)
            && e matches ApiError::NotFound)),
        (r matches Ok(u) ==> (spec_find_by_id(store.users@, auth_user.user_id as int) matches Some(
            i,
        ) && u == store.users@[i])),
        (spec_find_by_id(store.users@, auth_user.user_id as int) is Some ==> r is Ok),
{
    match store.find_by_id(auth_user.user_id) {
        Some(i) => {
            proof {
                lemma_find_by_id_some(store.users@, auth_user.user_id as int);
            }
            Ok(store.users[i].duplicate())
        },
        None => Err(ApiError::NotFound),
    }
}

/// Every stored user, in store order.
pub fn list_users(store: &UserStore) -> (r: Vec<User>)
    ensures
        r@ == store.users@,
{
    let mut out: Vec<User> = Vec::new();
    let n = store.users.len();
    for i in 0..n
        invariant
            n == store.users@.len(),
            out@ =~= store.users@.subrange(0, i as int),
    {
        out.push(store.users[i].duplicate());
        proof {
            assert(out@ =~= store.users@.subrange(0, i + 1 as int));
        }
    }
    proof {
        assert(out@ =~= store.users@);
    }
    out
}

/// The stored users with business role `role`, in store order.
pub open spec fn spec_users_with_role(users: Seq<User>, role: UserRole) -> Seq<User>
    decreases users.len(),
{
    if users.len() == 0 {
        Seq::empty()
    } else {
        let init = spec_users_with_role(users.drop_last(), role);
        if users.last().role == role {
            init.push(users.last())
        } else {
            init
        }
    }
}

/// Every stored user with this business role, in store order.
pub fn get_users_by_role(store: &UserStore, role: UserRole) -> (r: Vec<User>)
    ensures
        r@ == spec_users_with_role(store.users@, role),
{
    let mut out: Vec<User> = Vec::new();
    let n = store.users.len();
    for i in 0..n
        invariant
            n == store.users@.len(),
            out@ =~= spec_users_with_role(store.users@.subrange(0, i as int), role),
    {
        if store.users[i].role == role {
            out.push(store.users[i].duplicate());
        }
        proof {
            let s1 = store.users@.subrange(0, i + 1 as int);
            assert(s1.drop_last() =~= store.users@.subrange(0, i as int));
            assert(s1.last() == store.users@[i as int]);
            assert(out@ =~= spec_users_with_role(s1, role));
        }
    }
    proof {
        assert(store.users@.subrange(0, n as int) =~= store.users@);
    }
    out
}

} // verus!
