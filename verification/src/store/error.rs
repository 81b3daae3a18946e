//! Errors of the store.
use vstd::prelude::*;

use crate::text;

verus! {

/// Why the store refused or failed a request.
#[derive(Debug, Clone, PartialEq, Eq)]
pub enum Error {
    /// The database failed; holds the database's own description.
    Query(String),
    /// The named field was blank once trimmed.
    BlankValue(&'static str),
    /// The entry collides with an existing one.
    AlreadyExists,
    /// A rule on the values was broken; holds the rule's message.
    InvalidValue(&'static str),
    /// The entry does not exist.
    NotFound,
}

/// How a database call failed, as plain values.
#[derive(Debug, Clone, PartialEq, Eq)]
pub enum DatabaseFailure {
    /// A row was expected and none came back.
    RowNotFound,
    /// The database refused the statement, with its error code if it gave one.
    Database { code: Option<String>, description: String },
    /// Any other failure.
    Other(String),
}

/// The SQLite error code of a violated UNIQUE constraint.
pub open spec fn unique_violation_code() -> Seq<char> {
    seq!['2', '0', '6', '7']
}

/// The SQLite error code of a violated FOREIGN KEY constraint: the entry
/// refers to one that does not exist.
pub open spec fn foreign_key_violation_code() -> Seq<char> {
    seq!['7', '8', '7']
}

/// The store error that a database failure becomes.
pub open spec fn classify(f: DatabaseFailure) -> Error {
    match f {
        DatabaseFailure::RowNotFound => Error::NotFound,
        DatabaseFailure::Database { code, description } => {
            if code matches Some(c) && c@ == unique_violation_code() {
                Error::AlreadyExists
            } else if code matches Some(c) && c@ == foreign_key_violation_code() {
                Error::NotFound
            } else {
                Error::Query(description)
            }
        },
        DatabaseFailure::Other(description) => Error::Query(description),
    }
}

/// The text that describes an error to a user.
pub open spec fn describe(e: Error) -> Seq<char> {
    match e {
        Error::Query(d) => "Failed to perform query: "@ + d@,
        Error::BlankValue(field) => "Field `"@ + field@ + "` cannot be blank"@,
        Error::AlreadyExists => "Entry already exists"@,
        Error::InvalidValue(message) => message@,
        Error::NotFound => "Not found"@,
    }
}

impl Error {
    /// The store error for a failed database call: a violated UNIQUE
    /// constraint is `AlreadyExists`; a missing row, or a reference to an
    /// entry that does not exist, is `NotFound`; anything else is `Query`.
    pub fn from_failure(failure: DatabaseFailure) -> (r: Error)
        ensures
            r == classify(failure),
    {
        match failure {
            DatabaseFailure::RowNotFound => Error::NotFound,
            DatabaseFailure::Database { code, description } => {
                let (unique, missing) = match &code {
                    Some(c) => {
                        proof {
                            reveal_strlit("2067");
                            reveal_strlit("787");
                        }
                        let unique = text::equals(c.as_str(), "2067");
                        let missing = text::equals(c.as_str(), "787");
                        assert("2067"@ =~= unique_violation_code());
                        assert("787"@ =~= foreign_key_violation_code());
                        (unique, missing)
                    },
                    None => (false, false),
                };
                if unique {
                    Error::AlreadyExists
                } else if missing {
                    Error::NotFound
                } else {
                    Error::Query(description)
                }
            },
            DatabaseFailure::Other(description) => Error::Query(description),
        }
    }

    /// The text that describes the error to a user.
    pub fn message(&self) -> (r: String)
        ensures
            r@ == describe(*self),
    {
        match self {
            Error::Query(d) => text::join("Failed to perform query: ", d.as_str()),
            Error::BlankValue(field) => {
                let r = text::join("Field `", field);
                let r2 = text::join(r.as_str(), "` cannot be blank");
                r2
            },
            Error::AlreadyExists => String::from_str("Entry already exists"),
            Error::InvalidValue(message) => String::from_str(message),
            Error::NotFound => String::from_str("Not found"),
        }
    }
}

} // verus!
