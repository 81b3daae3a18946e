//! The rules on registered players: how their names and emails are read.
use vstd::prelude::*;

use super::error::Error;
use crate::text::{self, trimmed};

verus! {

/// The registered players.
pub struct Players;

impl Players {
    /// The email under which a registered player is looked up: trimmed, or
    /// `BlankValue("email")` where nothing is left.
    pub fn auth_email(email: &str) -> (r: Result<String, Error>)
        ensures
            trimmed(email@).len() == 0 ==> r == Err::<String, Error>(Error::BlankValue("email")),
            trimmed(email@).len() != 0 ==> (r matches Ok(e) && e@ == trimmed(email@)),
    {
        let e = text::trim(email);
        if e.as_str().is_empty() {
            Err(Error::BlankValue("email"))
        } else {
            Ok(e)
        }
    }

    /// The new name of a player: trimmed, or `BlankValue("name")` where
    /// nothing is left.
    pub fn new_name(name: &str) -> (r: Result<String, Error>)
        ensures
            trimmed(name@).len() == 0 ==> r == Err::<String, Error>(Error::BlankValue("name")),
            trimmed(name@).len() != 0 ==> (r matches Ok(n) && n@ == trimmed(name@)),
    {
        let n = text::trim(name);
        if n.as_str().is_empty() {
            Err(Error::BlankValue("name"))
        } else {
            Ok(n)
        }
    }

    /// The answer to a rename once the store looked for a player or invite
    /// that already has the name: `AlreadyExists` where one was found.
    pub fn check_taken(taken: bool) -> (r: Result<(), Error>)
        ensures
            r == if taken {
                Err::<(), Error>(Error::AlreadyExists)
            } else {
                Ok(())
            },
    {
        if taken {
            Err(Error::AlreadyExists)
        } else {
            Ok(())
        }
    }
}

} // verus!
