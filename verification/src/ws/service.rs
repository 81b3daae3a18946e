//! The error that a websocket answer carries.
use vstd::prelude::*;

use crate::status;

verus! {

/// An error answer: an HTTP status code and a message.
#[derive(Debug, Clone, PartialEq, Eq)]
pub struct Error {
    pub code: u16,
    pub message: String,
}

impl Error {
    /// An error of the given code and message.
    pub fn new(code: u16, message: &str) -> (r: Error)
        ensures
            r.code == code,
            r.message@ == message@,
    {
        Error { code, message: String::from_str(message) }
    }

    /// An error of the given status code whose message is the code's reason
    /// phrase, or empty where the code has none.
    pub fn from_status(code: u16) -> (r: Error)
        requires
            status::is_status(code),
        ensures
            r.code == code,
            r.message@ == match status::reason_phrase(code) {
                Some(p) => p,
                None => Seq::<char>::empty(),
            },
    {
        match status::canonical_reason(code) {
            Some(reason) => Error::new(code, reason),
            None => {
                proof {
                    reveal_strlit("");
                }
                Error::new(code, "")
            },
        }
    }
}

} // verus!
