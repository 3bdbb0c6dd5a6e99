//! The failures that the data-access layer reports.

use vstd::prelude::*;

verus! {

#[verifier::external_type_specification]
#[verifier::external_body]
pub struct ExSqlxError(sqlx::Error);

/// Failures of the data-access layer.
#[derive(Debug)]
pub enum DatabaseError {
    /// The store itself failed (connection, statement, decoding of a column).
    SqlxError(sqlx::Error),
    /// Creating the schema failed.
    MigrationError(String),
    /// The configuration cannot be used.
    ConfigError(String),
    /// A stored value is malformed, such as an identifier that does not parse.
    ValidationError(String),
    /// A record that was asked for explicitly is absent.
    NotFound(String),
    /// A foreign-key, uniqueness, not-null or check constraint was violated.
    ConstraintViolation(String),
    /// The context service failed.
    ContextLiteError(String),
}

/// The kind of failure that the store reported for a statement.
#[derive(Clone, Copy, Debug, PartialEq, Eq, Structural)]
pub enum StoreFailure {
    UniqueViolation,
    ForeignKeyViolation,
    NotNullViolation,
    CheckViolation,
    Other,
}

/// Whether the store's failure is the violation of a declared constraint.
pub open spec fn is_constraint_failure(kind: StoreFailure) -> bool {
    !(kind is Other)
}

/// Relies on sqlx::Error::as_database_error and the database error's `kind`:
/// which declared constraint, if any, the store reported as violated.
#[verifier::external_body]
fn store_failure_kind(e: &sqlx::Error) -> (r: StoreFailure) {
    match e.as_database_error() {
        Some(d) => match d.kind() {
            sqlx::error::ErrorKind::UniqueViolation => StoreFailure::UniqueViolation,
            sqlx::error::ErrorKind::ForeignKeyViolation => StoreFailure::ForeignKeyViolation,
            sqlx::error::ErrorKind::NotNullViolation => StoreFailure::NotNullViolation,
            sqlx::error::ErrorKind::CheckViolation => StoreFailure::CheckViolation,
            _ => StoreFailure::Other,
        },
        None => StoreFailure::Other,
    }
}

/// Relies on sqlx::Error's `Display` for the store's description of a failure.
#[verifier::external_body]
fn store_failure_text(e: &sqlx::Error) -> (r: String) {
    e.to_string()
}

impl DatabaseError {
    /// Sorts a failure that the store reported: a violated constraint becomes a
    /// constraint violation with the store's description; anything else stays a
    /// storage error.
    pub fn from_store(kind: StoreFailure, description: String, error: sqlx::Error) -> (r: DatabaseError)
        ensures
            is_constraint_failure(kind) ==> r == DatabaseError::ConstraintViolation(description),
            !is_constraint_failure(kind) ==> r == DatabaseError::SqlxError(error),
    {
        match kind {
            StoreFailure::Other => DatabaseError::SqlxError(error),
            _ => DatabaseError::ConstraintViolation(description),
        }
    }

    pub fn migration(msg: String) -> (r: DatabaseError)
        ensures
            r == DatabaseError::MigrationError(msg),
    {
        DatabaseError::MigrationError(msg)
    }

    pub fn config(msg: String) -> (r: DatabaseError)
        ensures
            r == DatabaseError::ConfigError(msg),
    {
        DatabaseError::ConfigError(msg)
    }

    pub fn validation(msg: String) -> (r: DatabaseError)
        ensures
            r == DatabaseError::ValidationError(msg),
    {
        DatabaseError::ValidationError(msg)
    }

    pub fn not_found(msg: String) -> (r: DatabaseError)
        ensures
            r == DatabaseError::NotFound(msg),
    {
        DatabaseError::NotFound(msg)
    }

    pub fn constraint(msg: String) -> (r: DatabaseError)
        ensures
            r == DatabaseError::ConstraintViolation(msg),
    {
        DatabaseError::ConstraintViolation(msg)
    }

    pub fn contextlite(msg: String) -> (r: DatabaseError)
        ensures
            r == DatabaseError::ContextLiteError(msg),
    {
        DatabaseError::ContextLiteError(msg)
    }

    /// The human-readable description of the failure, headed by its kind.
    pub fn message(&self) -> (r: String)
        ensures
            match self {
                DatabaseError::SqlxError(_) => "Database error: "@.is_prefix_of(r@),
                DatabaseError::MigrationError(m) => r@ == "Migration error: "@ + m@,
                DatabaseError::ConfigError(m) => r@ == "Configuration error: "@ + m@,
                DatabaseError::ValidationError(m) => r@ == "Validation error: "@ + m@,
                DatabaseError::NotFound(m) => r@ == "Not found: "@ + m@,
                DatabaseError::ConstraintViolation(m) => r@ == "Constraint violation: "@ + m@,
                DatabaseError::ContextLiteError(m) => r@ == "ContextLite error: "@ + m@,
            },
    {
        match self {
            DatabaseError::SqlxError(e) => {
                let r = prefixed("Database error: ", store_failure_text(e));
                proof { assert("Database error: "@ =~= r@.subrange(0, "Database error: "@.len() as int)); }
                r
            },
            DatabaseError::MigrationError(m) => prefixed("Migration error: ", m.clone()),
            DatabaseError::ConfigError(m) => prefixed("Configuration error: ", m.clone()),
            DatabaseError::ValidationError(m) => prefixed("Validation error: ", m.clone()),
            DatabaseError::NotFound(m) => prefixed("Not found: ", m.clone()),
            DatabaseError::ConstraintViolation(m) => prefixed("Constraint violation: ", m.clone()),
            DatabaseError::ContextLiteError(m) => prefixed("ContextLite error: ", m.clone()),
        }
    }
}

fn prefixed(head: &str, body: String) -> (r: String)
    ensures
        r@ == head@ + body@,
{
    let mut out = String::from_str(head);
    out.append(body.as_str());
    out
}

impl From<sqlx::Error> for DatabaseError {
    /// A store failure, sorted by `DatabaseError::from_store`.
    fn from(error: sqlx::Error) -> (r: DatabaseError) {
        let kind = store_failure_kind(&error);
        let description = store_failure_text(&error);
        DatabaseError::from_store(kind, description, error)
    }
}

impl vstd::std_specs::convert::FromSpecImpl<sqlx::Error> for DatabaseError {
    open spec fn obeys_from_spec() -> bool {
        false
    }

    open spec fn from_spec(v: sqlx::Error) -> DatabaseError {
        DatabaseError::SqlxError(v)
    }
}

} // verus!
