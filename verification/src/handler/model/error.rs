//! Why a request failed, and how the failure is answered.
use vstd::prelude::*;

use crate::mailbox;
use crate::status;
use crate::store;
use crate::ws;

verus! {

/// Why a request failed.
#[derive(Debug, Clone, PartialEq, Eq)]
pub enum Error {
    Store(store::Error),
    InvalidEmail(mailbox::Error),
    Forbidden,
}

/// A failure worth a warning rather than an error in the log: all but the
/// database's own failures.
pub open spec fn warns(e: Error) -> bool {
    !(e matches Error::Store(store::Error::Query(_)))
}

/// The status code and message with which a failure is answered.
pub open spec fn answer(e: Error) -> (u16, Seq<char>) {
    match e {
        Error::Store(s) => match s {
            store::Error::Query(_) => (status::INTERNAL_SERVER_ERROR, "Internal server error"@),
            store::Error::BlankValue(_) => (status::BAD_REQUEST, store::error::describe(s)),
            store::Error::InvalidValue(_) => (status::BAD_REQUEST, store::error::describe(s)),
            store::Error::AlreadyExists => (status::CONFLICT, store::error::describe(s)),
            store::Error::NotFound => (status::NOT_FOUND, "Not found"@),
        },
        Error::InvalidEmail(m) => (status::BAD_REQUEST, mailbox::describe(m)),
        Error::Forbidden => (status::FORBIDDEN, "Forbidden"@),
    }
}

impl Error {
    /// Whether the failure is logged as a warning rather than as an error.
    pub fn is_warn(&self) -> (r: bool)
        ensures
            r == warns(*self),
    {
        match self {
            Error::Store(store::Error::Query(_)) => false,
            _ => true,
        }
    }

    /// The error answer of the failure.
    pub fn into_answer(self) -> (r: ws::service::Error)
        ensures
            (r.code, r.message@) == answer(self),
    {
        match self {
            Error::Store(s) => match s {
                store::Error::Query(_) => ws::service::Error::new(
                    status::INTERNAL_SERVER_ERROR,
                    "Internal server error",
                ),
                store::Error::BlankValue(_) | store::Error::InvalidValue(_) => {
                    let m = s.message();
                    ws::service::Error::new(status::BAD_REQUEST, m.as_str())
                },
                store::Error::AlreadyExists => {
                    let m = s.message();
                    ws::service::Error::new(status::CONFLICT, m.as_str())
                },
                store::Error::NotFound => ws::service::Error::new(status::NOT_FOUND, "Not found"),
            },
            Error::InvalidEmail(m) => {
                let t = m.message();
                ws::service::Error::new(status::BAD_REQUEST, t.as_str())
            },
            Error::Forbidden => ws::service::Error::new(status::FORBIDDEN, "Forbidden"),
        }
    }
}

} // verus!
