//! Error answers of the board's HTTP routes, and how store failures map onto them.

use vstd::prelude::*;
use crate::color::hsl_valid;
use crate::text::owned;

verus! {

#[verifier::external_type_specification]
#[verifier::external_body]
pub struct ExSqlxError(sqlx::Error);

pub const STATUS_BAD_REQUEST: u16 = 400;
pub const STATUS_NOT_FOUND: u16 = 404;
pub const STATUS_CONFLICT: u16 = 409;
pub const STATUS_INTERNAL_SERVER_ERROR: u16 = 500;

/// An error answer: an HTTP status and a message, sent as `{"error": message}`.
#[derive(Debug)]
pub struct ErrorResponse {
    status: u16,
    message: String,
}

impl ErrorResponse {
    pub closed spec fn status_spec(&self) -> u16 {
        self.status
    }

    pub closed spec fn message_spec(&self) -> Seq<char> {
        self.message@
    }

    /// An answer with the given status and message.
    pub fn new(status: u16, message: &str) -> (r: ErrorResponse)
        ensures
            r.status_spec() == status,
            r.message_spec() == message@,
    {
        ErrorResponse { status, message: owned(message) }
    }

    /// The HTTP status.
    pub fn status(&self) -> (s: u16)
        ensures
            s == self.status_spec(),
    {
        self.status
    }

    /// The message.
    pub fn message(&self) -> (m: &str)
        ensures
            m@ == self.message_spec(),
    {
        self.message.as_str()
    }
}

/// The kinds of store failure that the routes answer differently.
#[derive(Clone, Copy, Debug, PartialEq, Eq, Structural)]
pub enum DbErrorKind {
    /// A unique or primary key constraint was violated.
    UniqueViolation,
    /// A foreign key constraint was violated.
    ForeignKeyViolation,
    /// Any other failure.
    Other,
}

/// Whether `sqlx` reports the error as a unique or primary key violation: the
/// driver's `DatabaseError::is_unique_violation` for a database error, `false`
/// for every other variant. It depends on the error alone (for SQLite, on the
/// error's extended result code).
pub uninterp spec fn sqlx_unique_violation(e: sqlx::Error) -> bool;

/// Whether `sqlx` reports the error as a foreign key violation, in the same way.
pub uninterp spec fn sqlx_foreign_key_violation(e: sqlx::Error) -> bool;

/// `DatabaseError::is_unique_violation` of the database error inside an `sqlx`
/// error (`false` for the other variants). Trusted: the answer is the named
/// result `sqlx_unique_violation` of the error.
#[verifier::external_body]
pub(crate) fn is_unique_violation(e: &sqlx::Error) -> (b: bool)
    ensures
        b == sqlx_unique_violation(*e),
{
    match e {
        sqlx::Error::Database(db) => sqlx::error::DatabaseError::is_unique_violation(&**db),
        _ => false,
    }
}

/// `DatabaseError::is_foreign_key_violation` of the database error inside an
/// `sqlx` error (`false` for the other variants). Trusted: the answer is the
/// named result `sqlx_foreign_key_violation` of the error.
#[verifier::external_body]
pub(crate) fn is_foreign_key_violation(e: &sqlx::Error) -> (b: bool)
    ensures
        b == sqlx_foreign_key_violation(*e),
{
    match e {
        sqlx::Error::Database(db) => sqlx::error::DatabaseError::is_foreign_key_violation(&**db),
        _ => false,
    }
}

/// The kind of a store failure from the two checks, a unique violation taking
/// precedence over a foreign key violation.
pub open spec fn kind_from_checks(unique: bool, foreign_key: bool) -> DbErrorKind {
    if unique {
        DbErrorKind::UniqueViolation
    } else if foreign_key {
        DbErrorKind::ForeignKeyViolation
    } else {
        DbErrorKind::Other
    }
}

/// The kind of an `sqlx` error.
pub open spec fn sqlx_error_kind(e: sqlx::Error) -> DbErrorKind {
    kind_from_checks(sqlx_unique_violation(e), sqlx_foreign_key_violation(e))
}

/// The kind of an `sqlx` error, from the two checks above: a unique violation
/// first, then a foreign key violation, otherwise any other failure.
fn classify_sqlx_error(e: &sqlx::Error) -> (k: DbErrorKind)
    ensures
        k == sqlx_error_kind(*e),
{
    if is_unique_violation(e) {
        DbErrorKind::UniqueViolation
    } else if is_foreign_key_violation(e) {
        DbErrorKind::ForeignKeyViolation
    } else {
        DbErrorKind::Other
    }
}

/// The answer to a store failure of the given kind: a conflict for a duplicate,
/// not-found for a missing related row, otherwise an internal error with the
/// route's own message.
pub open spec fn error_for_kind_spec(kind: DbErrorKind, fallback: Seq<char>) -> (u16, Seq<char>) {
    match kind {
        DbErrorKind::UniqueViolation => (STATUS_CONFLICT, "resource already exists"@),
        DbErrorKind::ForeignKeyViolation => (STATUS_NOT_FOUND, "related resource not found"@),
        DbErrorKind::Other => (STATUS_INTERNAL_SERVER_ERROR, fallback),
    }
}

/// The answer to a store failure of a known kind.
pub fn error_for_kind(kind: DbErrorKind, fallback: &str) -> (r: ErrorResponse)
    ensures
        (r.status_spec(), r.message_spec()) == error_for_kind_spec(kind, fallback@),
{
    match kind {
        DbErrorKind::UniqueViolation => ErrorResponse::new(STATUS_CONFLICT, "resource already exists"),
        DbErrorKind::ForeignKeyViolation => ErrorResponse::new(
            STATUS_NOT_FOUND,
            "related resource not found",
        ),
        DbErrorKind::Other => ErrorResponse::new(STATUS_INTERNAL_SERVER_ERROR, fallback),
    }
}

/// The answer to an `sqlx` error: a conflict for a unique violation, not-found
/// for a foreign key violation, otherwise an internal error with the route's
/// own message.
pub fn db_error(error: sqlx::Error, fallback: &str) -> (r: ErrorResponse)
    ensures
        (r.status_spec(), r.message_spec()) == error_for_kind_spec(sqlx_error_kind(error), fallback@),
{
    let kind = classify_sqlx_error(&error);
    error_for_kind(kind, fallback)
}

/// The message of a rejected colour.
pub open spec fn invalid_color_message() -> Seq<char> {
    "Invalid color format. Expected HSL format: 'H S% L%'"@
}

/// Accepts a colour in `"H S% L%"` notation; any other text is a bad request.
pub fn check_color(color: &str) -> (r: Result<(), ErrorResponse>)
    ensures
        r is Ok <==> hsl_valid(color@),
        r matches Err(e) ==> e.status_spec() == STATUS_BAD_REQUEST && e.message_spec()
            == invalid_color_message(),
{
    if crate::color::is_valid_hsl_color(color) {
        Ok(())
    } else {
        Err(ErrorResponse::new(
            STATUS_BAD_REQUEST,
            "Invalid color format. Expected HSL format: 'H S% L%'",
        ))
    }
}

/// Accepts an absent colour, or a present one that `check_color` accepts.
pub fn check_optional_color(color: &Option<String>) -> (r: Result<(), ErrorResponse>)
    ensures
        r is Ok <==> match color {
            Some(c) => hsl_valid(c@),
            None => true,
        },
        r matches Err(e) ==> e.status_spec() == STATUS_BAD_REQUEST && e.message_spec()
            == invalid_color_message(),
{
    match color {
        Some(c) => check_color(c.as_str()),
        None => Ok(()),
    }
}

} // verus!
