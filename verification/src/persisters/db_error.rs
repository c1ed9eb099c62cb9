//! The failures of the database that the service tells apart.

use vstd::prelude::*;

use crate::text::same_text;
use crate::trusted::{database_error_code, is_database_error, reported_by_database, reported_code};

verus! {

/// The code of a row that breaks a uniqueness constraint.
pub const UNIQUE_VIOLATION: &'static str = "23505";

/// The code of a row that refers to a row that is not there.
pub const FOREIGN_KEY_VIOLATION: &'static str = "23503";

/// The code of a password or key that the database does not accept.
pub const INVALID_PASSWORD: &'static str = "28P01";

/// Whether the database reported `e` under `code`.
pub open spec fn has_code(e: sqlx::Error, code: &str) -> bool {
    reported_code(e) == Some(code@)
}

/// Whether it was the database that reported `e`.
pub fn from_database(e: &sqlx::Error) -> (b: bool)
    ensures
        b == reported_by_database(*e),
{
    is_database_error(e)
}

/// Whether the database reported `e` under `code`.
pub fn reported_as(e: &sqlx::Error, code: &str) -> (b: bool)
    ensures
        b == has_code(*e, code),
{
    match database_error_code(e) {
        Some(c) => same_text(c.as_str(), code),
        None => false,
    }
}

} // verus!
