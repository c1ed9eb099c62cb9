//! Users.

use vstd::prelude::*;

pub mod user_dao;
pub mod user_routes;

verus! {

/// A user as the database holds it.
#[derive(Debug)]
pub struct User {
    pub id: uuid::Uuid,
    pub gh_id: Option<i32>,
    pub gh_email: Option<String>,
    pub gh_login: String,
    pub gh_token: Option<String>,
    pub gh_avatar_url: Option<String>,
    pub email_verified: Option<bool>,
}

} // verus!
