//! The credentials that come with a request.

pub mod api_auth;
pub mod auth;
pub mod jwt_auth;
