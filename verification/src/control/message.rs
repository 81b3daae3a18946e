//! The messages of the control service.
use vstd::prelude::*;

use crate::mailbox;
use crate::status;
use crate::store;
use crate::types::{self, Id};
use crate::ws;

verus! {

/// A request to the control service.
#[derive(Debug, Clone, PartialEq, Eq)]
pub enum Request {
    User(User),
}

/// An answer of the control service.
#[derive(Debug)]
pub enum Response {
    Id(Id),
    User(types::User),
    Users(Vec<types::User>),
}

/// Requests about users.
#[derive(Debug, Clone, PartialEq, Eq)]
pub enum User {
    /// The operator.
    Info,
    /// Renames the operator.
    Rename(String),
    List,
    /// The user of the given email.
    Get(String),
    Invite(Invite),
}

/// The name and email of an invited user.
#[derive(Debug, Clone, PartialEq, Eq)]
pub struct Invite {
    pub name: String,
    pub email: String,
}

/// A change that every operator is told of.
#[derive(Debug, Clone, PartialEq, Eq)]
pub enum Push {
    Invited(Invite),
}

/// Why a request failed.
#[derive(Debug, Clone, PartialEq, Eq)]
pub enum Error {
    Store(store::Error),
    NotFound,
    InvalidEmail(mailbox::Error),
}

/// The name under which a request is logged.
pub open spec fn action_of(r: Request) -> &'static str {
    match r {
        Request::User(u) => match u {
            User::Info => "User::Info",
            User::Rename(_) => "User::Renmae",
            User::List => "User::List",
            User::Get(_) => "User::Get",
            User::Invite(_) => "User::Invite",
        },
    }
}

impl Request {
    /// The name under which the request is logged.
    pub fn action(&self) -> (r: &'static str)
        ensures
            r == action_of(*self),
    {
        match self {
            Request::User(u) => match u {
                User::Info => "User::Info",
                User::Rename(_) => "User::Renmae",
                User::List => "User::List",
                User::Get(_) => "User::Get",
                User::Invite(_) => "User::Invite",
            },
        }
    }
}

/// The status code with which a failure is answered.
pub open spec fn answer_code(e: Error) -> u16 {
    match e {
        Error::Store(_) => status::INTERNAL_SERVER_ERROR,
        Error::NotFound => status::NOT_FOUND,
        Error::InvalidEmail(_) => status::BAD_REQUEST,
    }
}

impl Error {
    /// Whether the failure is logged as a warning rather than as an error:
    /// all but those of the store.
    pub fn is_warn(&self) -> (r: bool)
        ensures
            r == !(*self matches Error::Store(_)),
    {
        match self {
            Error::Store(_) => false,
            Error::NotFound | Error::InvalidEmail(_) => true,
        }
    }

    /// The error answer of the failure: its status code with the code's
    /// reason phrase.
    pub fn into_answer(self) -> (r: ws::service::Error)
        ensures
            r.code == answer_code(self),
            r.message@ == match status::reason_phrase(answer_code(self)) {
                Some(p) => p,
                None => Seq::<char>::empty(),
            },
    {
        match self {
            Error::Store(_) => ws::service::Error::from_status(status::INTERNAL_SERVER_ERROR),
            Error::NotFound => ws::service::Error::from_status(status::NOT_FOUND),
            Error::InvalidEmail(_) => ws::service::Error::from_status(status::BAD_REQUEST),
        }
    }
}

} // verus!
