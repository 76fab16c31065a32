//! Data model for the user-facing records the auth core works on.

use vstd::prelude::*;

verus! {

/// Business role of a user account. This is the broad, display-oriented
/// enumeration; it is distinct from the three-level authorization
/// hierarchy (`crate::auth::Role`) and never compared against it directly.
#[derive(Clone, Copy, Debug, PartialEq, Eq, Structural)]
pub enum UserRole {
    Seller,
    Buyer,
    Owner,
    Tenant,
    Agent,
}

/// Lower-case name of a business role, as stored and as embedded in
/// token claims.
pub open spec fn spec_role_str(role: UserRole) -> Seq<char> {
    match role {
        UserRole::Seller => "seller"@,
        UserRole::Buyer => "buyer"@,
        UserRole::Owner => "owner"@,
        UserRole::Tenant => "tenant"@,
        UserRole::Agent => "agent"@,
    }
}

impl UserRole {
    /// The lower-case string form of this role.
    pub fn as_str(&self) -> (r: &'static str)
        ensures
            r@ == spec_role_str(*self),
    {
        match self {
            UserRole::Seller => "seller",
            UserRole::Buyer => "buyer",
            UserRole::Owner => "owner",
            UserRole::Tenant => "tenant",
            UserRole::Agent => "agent",
        }
    }
}

/// A stored user record. Timestamps on the reset token are Unix
/// seconds; the audit timestamps stay opaque strings.
#[derive(Debug)]
pub struct User {
    pub id: Option<i64>,
    pub email: String,
    pub password_hash: String,
    pub full_name: String,
    pub phone: Option<String>,
    pub role: UserRole,
    pub verified: Option<bool>,
    pub profile_image_url: Option<String>,
    pub created_at: Option<String>,
    pub updated_at: Option<String>,
    /// The live password-reset token, if one has been requested.
    /// At most one per user: a new request overwrites the old token.
    pub reset_token: Option<String>,
    /// Expiry of the live reset token, Unix seconds.
    pub reset_token_expires: Option<i64>,
}

pub(crate) fn clone_opt_string(s: &Option<String>) -> (r: Option<String>)
    ensures
        r == *s,
{
    match s {
        Some(v) => Some(v.clone()),
        None => None,
    }
}

impl User {
    /// An exact copy of this record.
    pub fn duplicate(&self) -> (r: User)
        ensures
            r == *self,
    {
        User {
            id: self.id,
            email: self.email.clone(),
            password_hash: self.password_hash.clone(),
            full_name: self.full_name.clone(),
            phone: clone_opt_string(&self.phone),
            role: self.role,
            verified: self.verified,
            profile_image_url: clone_opt_string(&self.profile_image_url),
            created_at: clone_opt_string(&self.created_at),
            updated_at: clone_opt_string(&self.updated_at),
            reset_token: clone_opt_string(&self.reset_token),
            reset_token_expires: self.reset_token_expires,
        }
    }
}

/// Request body for registering a user.
#[derive(Debug)]
pub struct NewUser {
    pub email: String,
    pub password: String,
    pub full_name: String,
    pub phone: Option<String>,
    pub role: UserRole,
}

/// Request body for `login`.
#[derive(Debug)]
pub struct LoginCredentials {
    pub email: String,
    pub password: String,
}

} // verus!
