//! Token service: issues and validates the signed bearer tokens.
//!
//! A token is an opaque signed string carrying the claim fields `sub`
//! (user id), `iat` (issued-at, Unix seconds), `exp` (expiry, Unix
//! seconds) and `role` (string). Signing is symmetric: the same
//! process-wide secret both issues and verifies, so the secret is passed
//! in explicitly as configuration. Validation is stateless and pure: the
//! caller supplies the current time, and a token is accepted exactly
//! when its signature matches the secret and `now < exp`.

use vstd::prelude::*;

use crate::error::ApiError;
use crate::models::{spec_role_str, User};

verus! {

/// Lifetime of an access token: 24 hours, in seconds.
pub const ACCESS_TOKEN_LIFETIME: i64 = 86400;

/// Lifetime of a refresh token: 30 days, in seconds.
pub const REFRESH_TOKEN_LIFETIME: i64 = 2592000;

/// The signed token that `jsonwebtoken::encode` produces for the given
/// claim fields under the given secret. Deterministic: an HS256
/// signature over a canonical serialization of the claims.
pub uninterp spec fn jwt_of(sub: int, iat: int, exp: int, role: Seq<char>, secret: Seq<u8>) -> Seq<
    char,
>;

/// The claim fields `(sub, iat, exp, role)` that `jsonwebtoken::decode`
/// recovers from a token under a secret, or `None` when the token is
/// malformed or its signature does not match. Deterministic: the
/// clock-based checks are switched off at the call, so the outcome
/// depends on the token and the secret alone.
pub uninterp spec fn jwt_claims_of(token: Seq<char>, secret: Seq<u8>) -> Option<
    (int, int, int, Seq<char>),
>;

/// Relies on jsonwebtoken::encode with the default (HS256) header: the
/// token is a deterministic function of the claims and the secret, and
/// decoding it with the same secret recovers exactly the claims that
/// were signed. The call always succeeds on this path: the key from
/// `from_secret` matches the default header's algorithm family, HMAC
/// accepts a secret of any length, and signing and the serialization
/// of the fixed header and these claim values have no failure case.
#[verifier::external_body]
fn jwt_encode(sub: i64, iat: i64, exp: i64, role: &str, secret: &[u8]) -> (r: Result<String, ()>)
    ensures
        r is Ok,
        (r matches Ok(t) ==> t@ == jwt_of(sub as int, iat as int, exp as int, role@, secret@)),
        (r matches Ok(t) ==> jwt_claims_of(t@, secret@) == Some(
            (sub as int, iat as int, exp as int, role@),
        )),
{
    let mut claims = serde_json::Map::new();
    claims.insert("sub".to_string(), serde_json::Value::from(sub));
    claims.insert("iat".to_string(), serde_json::Value::from(iat));
    claims.insert("exp".to_string(), serde_json::Value::from(exp));
    claims.insert("role".to_string(), serde_json::Value::from(role));
    let key = jsonwebtoken::EncodingKey::from_secret(secret);
    jsonwebtoken::encode(&jsonwebtoken::Header::default(), &serde_json::Value::Object(claims), &key)
        .map_err(|_| ())
}

/// Relies on jsonwebtoken::decode over a JSON value: verifies the HS256
/// signature against the secret and parses the claims. All clock-based
/// validation is switched off here, so the result is a deterministic
/// function of the token and the secret; expiry is checked separately,
/// in verified code.
#[verifier::external_body]
fn jwt_decode(token: &str, secret: &[u8]) -> (r: Option<(i64, i64, i64, String)>)
    ensures
        (r matches Some(c) ==> jwt_claims_of(token@, secret@) == Some(
            (c.0 as int, c.1 as int, c.2 as int, c.3@),
        )),
        (r is None ==> jwt_claims_of(token@, secret@) is None),
{
    let mut validation = jsonwebtoken::Validation::new(jsonwebtoken::Algorithm::HS256);
    validation.validate_exp = false;
    validation.validate_aud = false;
    validation.required_spec_claims.clear();
    let key = jsonwebtoken::DecodingKey::from_secret(secret);
    let data = jsonwebtoken::decode::<serde_json::Value>(token, &key, &validation).ok()?;
    let sub = data.claims.get("sub")?.as_i64()?;
    let iat = data.claims.get("iat")?.as_i64()?;
    let exp = data.claims.get("exp")?.as_i64()?;
    let role = data.claims.get("role")?.as_str()?.to_string();
    Some((sub, iat, exp, role))
}

/// The structured payload embedded in every issued token.
/// Invariant at issuance: `exp > iat`, and `sub` references an existing
/// user; validation does not re-check existence.
#[derive(Debug)]
pub struct Claims {
    /// Subject: the user id.
    pub sub: i64,
    /// Expiry, Unix seconds.
    pub exp: i64,
    /// Issued-at, Unix seconds.
    pub iat: i64,
    /// Authorization role name embedded at issuance time.
    pub role: String,
}

impl View for Claims {
    type V = (int, int, int, Seq<char>);

    open spec fn view(&self) -> (int, int, int, Seq<char>) {
        (self.sub as int, self.iat as int, self.exp as int, self.role@)
    }
}

/// What validating `token` against `secret` at time `now` yields:
/// the recovered claims when the signature matches and the token is not
/// yet expired, `None` otherwise.
pub open spec fn spec_validate(token: Seq<char>, secret: Seq<u8>, now: int) -> Option<
    (int, int, int, Seq<char>),
> {
    match jwt_claims_of(token, secret) {
        Some(c) => if now < c.2 {
            Some(c)
        } else {
            None
        },
        None => None,
    }
}

/// What holds of a token the service issued for the claim fields
/// `(sub, iat, exp, role)` under `secret`: it is exactly the signed
/// string for those claims, and decoding it with the same secret
/// recovers them.
pub open spec fn issued_token_ok(
    t: Seq<char>,
    secret: Seq<u8>,
    sub: int,
    iat: int,
    exp: int,
    role: Seq<char>,
) -> bool {
    &&& t == jwt_of(sub, iat, exp, role, secret)
    &&& jwt_claims_of(t, secret) == Some((sub, iat, exp, role))
}

/// Round-trip law: a token issued for given claim fields validates, at
/// any time before its expiry, to exactly those fields — in particular
/// to the subject and role it was issued with — and is rejected from
/// its expiry on.
pub proof fn lemma_issued_token_round_trip(
    t: Seq<char>,
    secret: Seq<u8>,
    sub: int,
    iat: int,
    exp: int,
    role: Seq<char>,
    v: int,
)
    requires
        issued_token_ok(t, secret, sub, iat, exp, role),
    ensures
        v < exp ==> spec_validate(t, secret, v) == Some((sub, iat, exp, role)),
        v >= exp ==> spec_validate(t, secret, v) is None,
{
}

/// Issue an access token for `user` at time `now`: claims
/// `(user.id, now, now + 24h, user.role)`, signed with `secret`.
/// Issuance always succeeds — signing with a symmetric secret has no
/// failure case; the error branch of the result stays only as the
/// boundary's shape. `lemma_issued_token_round_trip` says how the
/// issued token validates.
pub fn create_token(user: &User, secret: &[u8], now: i64) -> (r: Result<String, ApiError>)
    requires
        user.id is Some,
        now + ACCESS_TOKEN_LIFETIME <= i64::MAX,
    ensures
        r is Ok,
        (r matches Ok(t) ==> issued_token_ok(
            t@,
            secret@,
            user.id->0 as int,
            now as int,
            now + ACCESS_TOKEN_LIFETIME,
            spec_role_str(user.role),
        )),
{
    let uid = user.id.unwrap();
    let exp = now + ACCESS_TOKEN_LIFETIME;
    match jwt_encode(uid, now, exp, user.role.as_str(), secret) {
        Ok(t) => Ok(t),
        Err(_) => Err(ApiError::ValidationError(String::from_str("Token creation failed"))),
    }
}

/// Issue a refresh token for `user` at time `now`: identical to
/// `create_token` but with a 30-day lifetime. Issuance always
/// succeeds, as for `create_token`.
pub fn create_refresh_token(user: &User, secret: &[u8], now: i64) -> (r: Result<String, ApiError>)
    requires
        user.id is Some,
        now + REFRESH_TOKEN_LIFETIME <= i64::MAX,
    ensures
        r is Ok,
        (r matches Ok(t) ==> issued_token_ok(
            t@,
            secret@,
            user.id->0 as int,
            now as int,
            now + REFRESH_TOKEN_LIFETIME,
            spec_role_str(user.role),
        )),
{
    let uid = user.id.unwrap();
    let exp = now + REFRESH_TOKEN_LIFETIME;
    match jwt_encode(uid, now, exp, user.role.as_str(), secret) {
        Ok(t) => Ok(t),
        Err(_) => Err(
            ApiError::ValidationError(String::from_str("Refresh token creation failed")),
        ),
    }
}

/// Validate a bearer token at time `now`: accept exactly when the
/// signature matches `secret` and `now < exp`; reject signature
/// mismatches, malformed input and expired tokens, all with the same
/// authentication error.
pub fn validate_token(token: &str, secret: &[u8], now: i64) -> (r: Result<Claims, ApiError>)
    ensures
        (r matches Ok(c) ==> spec_validate(token@, secret@, now as int) == Some(c@)),
        (r matches Ok(c) ==> c.exp > now),
        (r matches Err(e) ==> spec_validate(token@, secret@, now as int) is None),
        (r matches Err(e) ==> e matches ApiError::AuthenticationError(m) && m@
            == "Invalid token"@),
{
    match jwt_decode(token, secret) {
        Some(c) => {
            if now < c.2 {
                Ok(Claims { sub: c.0, exp: c.2, iat: c.1, role: c.3 })
            } else {
                Err(ApiError::AuthenticationError(String::from_str("Invalid token")))
            }
        },
        None => Err(ApiError::AuthenticationError(String::from_str("Invalid token"))),
    }
}

/// Expiry law: a token whose embedded expiry is not in the future is
/// rejected at `now`, regardless of whether its signature is valid; so
/// is any token that does not decode at all.
pub proof fn lemma_expired_token_rejected(token: Seq<char>, secret: Seq<u8>, now: int)
    requires
        jwt_claims_of(token, secret) matches Some(c) ==> now >= c.2,
    ensures
        spec_validate(token, secret, now) is None,
{
}

} // verus!
