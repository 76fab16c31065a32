//! Role hierarchy and the per-request authentication and authorization
//! gate: bearer-token extraction, token validation, role check.

use vstd::prelude::*;

use crate::error::ApiError;
use crate::models::User;
use crate::token::{spec_validate, validate_token};

verus! {

/// Authorization role: a total order `Admin > Agent > User`.
/// Unrelated to the business enumeration `crate::models::UserRole`.
#[derive(Clone, Copy, Debug, PartialEq, Eq, Structural)]
pub enum Role {
    Admin,
    Agent,
    User,
}

/// Ordinal position of a role in the hierarchy; higher passes more checks.
pub open spec fn spec_role_rank(role: Role) -> int {
    match role {
        Role::Admin => 2,
        Role::Agent => 1,
        Role::User => 0,
    }
}

/// `actual` may act where at least `required` is demanded.
pub open spec fn spec_authorize(actual: Role, required: Role) -> bool {
    spec_role_rank(actual) >= spec_role_rank(required)
}

impl Role {
    fn rank(&self) -> (r: u8)
        ensures
            r as int == spec_role_rank(*self),
    {
        match self {
            Role::Admin => 2,
            Role::Agent => 1,
            Role::User => 0,
        }
    }
}

/// The "at-least" check over the role hierarchy: an ordinal comparison,
/// so that adding a role later is a one-line change.
pub fn authorize(actual: &Role, required: &Role) -> (r: bool)
    ensures
        r == spec_authorize(*actual, *required),
{
    actual.rank() >= required.rank()
}

/// `c` with an upper-case ASCII letter folded to lower case.
pub open spec fn lower_char(c: char) -> char {
    if 'A' <= c && c <= 'Z' {
        ((c as u8) + 32) as char
    } else {
        c
    }
}

/// Case-insensitive equality on ASCII letters, position by position.
pub open spec fn spec_eq_ignore_case(s: Seq<char>, t: Seq<char>) -> bool {
    s.len() == t.len() && (forall|i: int|
        0 <= i < s.len() ==> lower_char(s[i]) == lower_char(t[i]))
}

fn lower_char_exec(c: char) -> (r: char)
    ensures
        r == lower_char(c),
{
    if 'A' <= c && c <= 'Z' {
        ((c as u8) + 32) as char
    } else {
        c
    }
}

fn eq_ignore_case(s: &str, t: &str) -> (r: bool)
    ensures
        r == spec_eq_ignore_case(s@, t@),
{
    let n = s.unicode_len();
    if n != t.unicode_len() {
        return false;
    }
    for i in 0..n
        invariant
            n == s@.len(),
            n == t@.len(),
            forall|j: int| 0 <= j < i ==> lower_char(s@[j]) == lower_char(t@[j]),
    {
        if lower_char_exec(s.get_char(i)) != lower_char_exec(t.get_char(i)) {
            return false;
        }
    }
    true
}

/// The role named by `s`, compared without regard to ASCII case;
/// `None` for every other string — in particular for the business
/// roles, which take no part in the authorization hierarchy.
pub open spec fn spec_role_from_str(s: Seq<char>) -> Option<Role> {
    if spec_eq_ignore_case(s, "admin"@) {
        Some(Role::Admin)
    } else if spec_eq_ignore_case(s, "agent"@) {
        Some(Role::Agent)
    } else if spec_eq_ignore_case(s, "user"@) {
        Some(Role::User)
    } else {
        None
    }
}

impl Role {
    /// Parse an authorization role name, ignoring ASCII case.
    pub fn from_str(role: &str) -> (r: Option<Role>)
        ensures
            r == spec_role_from_str(role@),
    {
        if eq_ignore_case(role, "admin") {
            Some(Role::Admin)
        } else if eq_ignore_case(role, "agent") {
            Some(Role::Agent)
        } else if eq_ignore_case(role, "user") {
            Some(Role::User)
        } else {
            None
        }
    }
}

/// The full 3x3 authorization matrix, spelled out: `Admin` passes every
/// requirement, `Agent` passes `Agent` and `User`, `User` passes only
/// `User`, and every other combination fails.
pub proof fn lemma_role_matrix()
    ensures
        spec_authorize(Role::Admin, Role::Admin),
        spec_authorize(Role::Admin, Role::Agent),
        spec_authorize(Role::Admin, Role::User),
        !spec_authorize(Role::Agent, Role::Admin),
        spec_authorize(Role::Agent, Role::Agent),
        spec_authorize(Role::Agent, Role::User),
        !spec_authorize(Role::User, Role::Admin),
        !spec_authorize(Role::User, Role::Agent),
        spec_authorize(Role::User, Role::User),
{
}

/// The minimum role a route declares; routes without one skip the
/// authorization step.
#[derive(Clone, Copy)]
pub struct RequireRole(pub Role);

/// The request-scoped identity attached once a token has been
/// validated: explicit context handed to the downstream handler, owned
/// by the request lifetime only.
#[derive(Debug)]
pub struct AuthUser {
    pub user_id: i64,
    pub role: String,
}

/// Response body of `login` and `refresh`: a fresh token pair and the
/// user record they were issued for.
#[derive(Debug)]
pub struct AuthResponse {
    pub token: String,
    pub refresh_token: String,
    pub user: User,
}

/// Request body of the refresh endpoint.
#[derive(Debug)]
pub struct RefreshToken {
    pub token: String,
}

/// The token carried by an `Authorization: Bearer <token>` header
/// value, or `None` where the value is not in that shape.
pub open spec fn spec_extract_bearer(h: Seq<char>) -> Option<Seq<char>> {
    if h.len() >= 7 && h.subrange(0, 7) == "Bearer "@ {
        Some(h.skip(7))
    } else {
        None
    }
}

/// Parse an `Authorization` header value of the shape
/// `Bearer <token>`, yielding the token.
pub fn extract_bearer(header: &str) -> (r: Option<String>)
    ensures
        (r matches Some(t) ==> spec_extract_bearer(header@) == Some(t@)),
        (r is None ==> spec_extract_bearer(header@) is None),
{
    proof {
        reveal_strlit("Bearer ");
    }
    let n = header.unicode_len();
    if n < 7 {
        return None;
    }
    let prefix = "Bearer ";
    for i in 0..7
        invariant
            n == header@.len(),
            n >= 7,
            prefix@ == "Bearer "@,
            prefix@.len() == 7,
            forall|j: int| 0 <= j < i ==> header@[j] == prefix@[j],
    {
        if header.get_char(i) != prefix.get_char(i) {
            proof {
                assert(header@.subrange(0, 7)[i as int] != "Bearer "@[i as int]);
            }
            return None;
        }
    }
    proof {
        assert(header@.subrange(0, 7) =~= "Bearer "@);
    }
    let token = header.substring_char(7, n);
    proof {
        assert(token@ =~= header@.skip(7));
    }
    Some(String::from_str(token))
}

/// Authorization step of the middleware: map the identity's role name
/// into the hierarchy and check it against the route's requirement.
/// An unrecognized role name — including every business role — is
/// rejected, never silently downgraded.
pub fn require_role(auth_user: &AuthUser, required: &RequireRole) -> (r: Result<(), ApiError>)
    ensures
        (spec_role_from_str(auth_user.role@) is None ==> (r matches Err(e)
            && e matches ApiError::AuthorizationError(m) && m@ == "Invalid role"@)),
        (spec_role_from_str(auth_user.role@) matches Some(a) && spec_authorize(a, required.0)
            ==> r is Ok),
        (spec_role_from_str(auth_user.role@) matches Some(a) && !spec_authorize(a, required.0) ==> (
        r matches Err(e) && e matches ApiError::AuthorizationError(m) && m@
            == "Insufficient permissions"@)),
{
    match Role::from_str(auth_user.role.as_str()) {
        None => Err(ApiError::AuthorizationError(String::from_str("Invalid role"))),
        Some(actual) => {
            if authorize(&actual, &required.0) {
                Ok(())
            } else {
                Err(ApiError::AuthorizationError(String::from_str("Insufficient permissions")))
            }
        },
    }
}

/// The per-request gate, as a state machine judged once per request:
/// extract the bearer token, validate it, check the declared role if
/// the route has one, and either hand back the authenticated identity
/// (forward) or the rejection. A missing or malformed header and an
/// invalid or expired token reject as authentication failures; a valid
/// identity with an insufficient or unrecognized role rejects as an
/// authorization failure.
pub fn check_request(
    header: Option<&String>,
    required: Option<&RequireRole>,
    secret: &[u8],
    now: i64,
) -> (r: Result<AuthUser, ApiError>)
    ensures
        ((header is None || spec_extract_bearer((header->0)@) is None) ==> (r matches Err(e)
            && e matches ApiError::AuthenticationError(m) && m@
            == "Invalid authorization header"@)),
        ((header is Some && spec_extract_bearer((header->0)@) is Some && spec_validate(
            spec_extract_bearer((header->0)@)->0,
            secret@,
            now as int,
        ) is None) ==> (r matches Err(e) && e matches ApiError::AuthenticationError(m) && m@
            == "Invalid token"@)),
        ((header is Some && spec_extract_bearer((header->0)@) is Some && spec_validate(
            spec_extract_bearer((header->0)@)->0,
            secret@,
            now as int,
        ) is Some) ==> {
            let c = spec_validate(spec_extract_bearer((header->0)@)->0, secret@, now as int)->0;
            match required {
                None => r matches Ok(u) && u.user_id == c.0 && u.role@ == c.3,
                Some(q) => match spec_role_from_str(c.3) {
                    None => (r matches Err(e) && e matches ApiError::AuthorizationError(m) && m@
                        == "Invalid role"@),
                    Some(a) => if spec_authorize(a, q.0) {
                        r matches Ok(u) && u.user_id == c.0 && u.role@ == c.3
                    } else {
                        (r matches Err(e) && e matches ApiError::AuthorizationError(m) && m@
                            == "Insufficient permissions"@)
                    },
                },
            }
        }),
{
    let h = match header {
        Some(h) => h,
        None => {
            return Err(
                ApiError::AuthenticationError(String::from_str("Invalid authorization header")),
            );
        },
    };
    let token = match extract_bearer(h.as_str()) {
        Some(t) => t,
        None => {
            return Err(
                ApiError::AuthenticationError(String::from_str("Invalid authorization header")),
            );
        },
    };
    let claims = match validate_token(token.as_str(), secret, now) {
        Ok(c) => c,
        Err(e) => {
            return Err(e);
        },
    };
    let auth_user = AuthUser { user_id: claims.sub, role: claims.role };
    match required {
        None => Ok(auth_user),
        Some(q) => {
            match require_role(&auth_user, q) {
                Ok(_) => Ok(auth_user),
                Err(e) => Err(e),
            }
        },
    }
}

} // verus!
