//! The rules on invitations: how names and emails are normalized.
use vstd::prelude::*;

use super::error::Error;
use crate::text::{self, lowercase, trimmed};

verus! {

/// The normalized form of an email: trimmed and lower-cased.
pub open spec fn normal_email(email: Seq<char>) -> Seq<char> {
    lowercase(trimmed(email))
}

/// The invitations of new players.
pub struct Invites;

/// The name and email of an invitation, normalized.
#[derive(Debug, Clone, PartialEq, Eq)]
pub struct NewInvite {
    pub name: String,
    pub email: String,
}

impl Invites {
    /// The email under which an invited user is looked up: trimmed and
    /// lower-cased, or `BlankValue("email")` where nothing is left once
    /// trimmed.
    pub fn auth_email(email: &str) -> (r: Result<String, Error>)
        ensures
            trimmed(email@).len() == 0 ==> r == Err::<String, Error>(Error::BlankValue("email")),
            trimmed(email@).len() != 0 ==> (r matches Ok(e) && e@ == normal_email(email@)),
    {
        let t = text::trim(email);
        if t.as_str().is_empty() {
            return Err(Error::BlankValue("email"));
        }
        Ok(text::to_lowercase(t.as_str()))
    }

    /// The invitation as it is stored: the name trimmed, the email trimmed
    /// and lower-cased. A name that is blank once trimmed is
    /// `BlankValue("name")`; else an email that is blank once trimmed is
    /// `BlankValue("email")`.
    pub fn new_invite(name: &str, email: &str) -> (r: Result<NewInvite, Error>)
        ensures
            trimmed(name@).len() == 0 ==> r == Err::<NewInvite, Error>(Error::BlankValue("name")),
            trimmed(name@).len() != 0 && trimmed(email@).len() == 0 ==> r == Err::<
                NewInvite,
                Error,
            >(Error::BlankValue("email")),
            trimmed(name@).len() != 0 && trimmed(email@).len() != 0 ==> (r matches Ok(i) && i.name@
                == trimmed(name@) && i.email@ == normal_email(email@)),
    {
        let name = text::trim(name);
        if name.as_str().is_empty() {
            return Err(Error::BlankValue("name"));
        }
        let t = text::trim(email);
        if t.as_str().is_empty() {
            return Err(Error::BlankValue("email"));
        }
        let email = text::to_lowercase(t.as_str());
        Ok(NewInvite { name, email })
    }

    /// The answer to an invitation once the store looked for a player with
    /// the same name or email: `AlreadyExists` where one was found.
    pub fn check_taken(taken: bool) -> (r: Result<(), Error>)
        ensures
            r == if taken {
                Err::<(), Error>(Error::AlreadyExists)
            } else {
                Ok(())
            },
    {
        if taken {
            Err(Error::AlreadyExists)
        } else {
            Ok(())
        }
    }
}

} // verus!
