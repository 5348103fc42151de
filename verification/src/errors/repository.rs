//! Failures of a store.

use crate::text::joined;
use crate::text::same_text;
use vstd::prelude::*;

verus! {

/// A failure of a store.
#[derive(Debug, Clone)]
pub enum RepositoryError {
    Database(String),
    NotFound,
    UniqueViolation(String),
    ForeignKeyViolation(String),
    Connection(String),
    Transaction(String),
    Serialization(String),
}

/// What the database driver reported, as far as the stores tell failures
/// apart: a missing row, a failure of the database itself with its code and
/// message, a failure of the connection, or anything else, with its text.
#[derive(Debug, Clone)]
pub enum DatabaseFailure {
    RowNotFound,
    Database { code: Option<String>, message: String },
    Io(String),
    Tls(String),
    Other(String),
}

/// The code by which the database reports that a value is taken.
pub open spec fn unique_violation_code() -> Seq<char> {
    "23505"@
}

/// The code by which the database reports that a reference leads nowhere.
pub open spec fn foreign_key_violation_code() -> Seq<char> {
    "23503"@
}

impl DatabaseFailure {
    /// Whether a failure of the database itself carries the given code.
    pub open spec fn has_code(self, code: Seq<char>) -> bool {
        self matches DatabaseFailure::Database { code: Some(c), .. } && c@ == code
    }
}

impl RepositoryError {
    /// How the failure reads.
    pub open spec fn text(self) -> Seq<char> {
        match self {
            RepositoryError::Database(detail) => "Database error: "@ + detail@,
            RepositoryError::NotFound => "Entity not found"@,
            RepositoryError::UniqueViolation(detail) => "Unique constraint violation: "@ + detail@,
            RepositoryError::ForeignKeyViolation(detail) => "Foreign key constraint violation: "@
                + detail@,
            RepositoryError::Connection(detail) => "Connection error: "@ + detail@,
            RepositoryError::Transaction(detail) => "Transaction error: "@ + detail@,
            RepositoryError::Serialization(detail) => "Serialization error: "@ + detail@,
        }
    }

    /// How the failure reads.
    pub fn message(&self) -> (message: String)
        ensures
            message@ == self.text(),
    {
        match self {
            RepositoryError::Database(detail) => joined("Database error: ", detail.as_str()),
            RepositoryError::NotFound => String::from_str("Entity not found"),
            RepositoryError::UniqueViolation(detail) => joined(
                "Unique constraint violation: ",
                detail.as_str(),
            ),
            RepositoryError::ForeignKeyViolation(detail) => joined(
                "Foreign key constraint violation: ",
                detail.as_str(),
            ),
            RepositoryError::Connection(detail) => joined("Connection error: ", detail.as_str()),
            RepositoryError::Transaction(detail) => joined("Transaction error: ", detail.as_str()),
            RepositoryError::Serialization(detail) => joined(
                "Serialization error: ",
                detail.as_str(),
            ),
        }
    }

    /// The failure of a store that a failure of the database driver amounts
    /// to: a missing row is an entity not found; a failure of the database is
    /// told apart by its code; a failure of the connection stays one; the rest
    /// is a database error.
    pub fn from(failure: DatabaseFailure) -> (error: Self)
        ensures
            match failure {
                DatabaseFailure::RowNotFound => error == RepositoryError::NotFound,
                DatabaseFailure::Database { code, message } => if failure.has_code(
                    unique_violation_code(),
                ) {
                    error == RepositoryError::UniqueViolation(message)
                } else if failure.has_code(foreign_key_violation_code()) {
                    error == RepositoryError::ForeignKeyViolation(message)
                } else {
                    error == RepositoryError::Database(message)
                },
                DatabaseFailure::Io(detail) => error == RepositoryError::Connection(detail),
                DatabaseFailure::Tls(detail) => error == RepositoryError::Connection(detail),
                DatabaseFailure::Other(detail) => error == RepositoryError::Database(detail),
            },
    {
        match failure {
            DatabaseFailure::RowNotFound => RepositoryError::NotFound,
            DatabaseFailure::Database { code, message } => {
                let unique = match &code {
                    Some(c) => same_text(c.as_str(), "23505"),
                    None => false,
                };
                let foreign = match &code {
                    Some(c) => same_text(c.as_str(), "23503"),
                    None => false,
                };
                if unique {
                    RepositoryError::UniqueViolation(message)
                } else if foreign {
                    RepositoryError::ForeignKeyViolation(message)
                } else {
                    RepositoryError::Database(message)
                }
            },
            DatabaseFailure::Io(detail) => RepositoryError::Connection(detail),
            DatabaseFailure::Tls(detail) => RepositoryError::Connection(detail),
            DatabaseFailure::Other(detail) => RepositoryError::Database(detail),
        }
    }
}

} // verus!
