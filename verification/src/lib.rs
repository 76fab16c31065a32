//! Authentication and authorization core for a rental-listings service:
//! signed session tokens, refresh-token rotation, one-time password-reset
//! tokens, and a three-level role hierarchy enforced per request.

pub mod auth;
pub mod error;
pub mod handlers;
pub mod models;
pub mod password;
pub mod store;
pub mod token;
