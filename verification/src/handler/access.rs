//! Who is asking: registered players and users who were only invited.
use vstd::prelude::*;

use crate::mailbox;
use crate::store;
use crate::types::{self, Id};

verus! {

/// A kind of access that a user can have.
pub trait Access: Sized {
    /// Whether users of this kind were invited but did not join yet.
    spec fn pending() -> bool;

    /// Whether users of this kind were invited but did not join yet.
    fn is_pending() -> (r: bool)
        ensures
            r == Self::pending(),
    ;
}

/// The access of a registered player.
#[derive(Debug, Copy, Clone)]
pub struct Regular;

/// The access of a user who was invited and did not answer yet.
#[derive(Debug, Copy, Clone)]
pub struct Pending;

impl Access for Regular {
    open spec fn pending() -> bool {
        false
    }

    fn is_pending() -> (r: bool) {
        false
    }
}

impl Access for Pending {
    open spec fn pending() -> bool {
        true
    }

    fn is_pending() -> (r: bool) {
        true
    }
}

/// A user with the access `A`.
#[derive(Debug)]
pub struct User<A: Access> {
    id: Id,
    name: String,
    email: String,
    access: core::marker::PhantomData<A>,
}

impl<A: Access> User<A> {
    /// The identifier of the user.
    pub closed spec fn spec_id(&self) -> Id {
        self.id
    }

    /// The name of the user.
    pub closed spec fn spec_name(&self) -> Seq<char> {
        self.name@
    }

    /// The email of the user.
    pub closed spec fn spec_email(&self) -> Seq<char> {
        self.email@
    }

    /// A user of the given identifier, name and email.
    pub fn new(id: Id, name: String, email: String) -> (r: Self)
        ensures
            r.spec_id() == id,
            r.spec_name() == name@,
            r.spec_email() == email@,
    {
        User { id, name, email, access: core::marker::PhantomData }
    }

    /// The identifier of the user.
    pub fn id(&self) -> (r: Id)
        ensures
            r == self.spec_id(),
    {
        self.id
    }

    /// The name of the user.
    pub fn name(&self) -> (r: &String)
        ensures
            r@ == self.spec_name(),
    {
        &self.name
    }

    /// The email of the user.
    pub fn email(&self) -> (r: &String)
        ensures
            r@ == self.spec_email(),
    {
        &self.email
    }

    /// The name and email of the user, to address mail to.
    pub fn make_proto(&self) -> (r: mailbox::Proto)
        ensures
            r.name@ == self.spec_name(),
            r.email@ == self.spec_email(),
    {
        mailbox::Proto { name: self.name.clone(), email: self.email.clone() }
    }

    /// Gives the user a new name; nothing else changes.
    pub fn update_name(&mut self, name: String)
        ensures
            final(self).spec_name() == name@,
            final(self).spec_id() == old(self).spec_id(),
            final(self).spec_email() == old(self).spec_email(),
    {
        self.name = name;
    }
}

/// A user with the access that the store found for it.
#[derive(Debug)]
pub enum UserAccess {
    Regular(User<Regular>),
    Pending(User<Pending>),
}

/// The user that a lookup found, with the access that the place it was
/// found in gives.
pub open spec fn found_as<A: Access>(u: User<A>, found: types::User) -> bool {
    u.spec_id() == found.id && u.spec_name() == found.name@ && u.spec_email() == found.email@
}

/// Tells who a user is from the store's answers: a registered player is a
/// `Regular` user; otherwise an invited one is `Pending`.
#[derive(Debug, Copy, Clone)]
pub struct Auth;

impl Auth {
    /// The access checks.
    pub fn new() -> (r: Self) {
        Auth
    }

    /// The access of a user from the lookup among players and, where that
    /// found no one, the lookup among invites. A failed player lookup is an
    /// error; a failed invite lookup counts as not found.
    pub fn auth(
        &self,
        player: Result<Option<types::User>, store::Error>,
        invite: Result<Option<types::User>, store::Error>,
    ) -> (r: Result<Option<UserAccess>, store::Error>)
        ensures
            match player {
                Err(e) => r == Err::<Option<UserAccess>, store::Error>(e),
                Ok(Some(p)) => r matches Ok(Some(UserAccess::Regular(u))) && found_as(u, p),
                Ok(None) => match invite {
                    Ok(Some(i)) => r matches Ok(Some(UserAccess::Pending(u))) && found_as(u, i),
                    _ => r matches Ok(None),
                },
            },
    {
        match player {
            Err(e) => Err(e),
            Ok(Some(p)) => Ok(Some(UserAccess::Regular(User::new(p.id, p.name, p.email)))),
            Ok(None) => match invite {
                Ok(Some(i)) => Ok(
                    Some(UserAccess::Pending(User::new(i.id, i.name, i.email))),
                ),
                _ => Ok(None),
            },
        }
    }
}

} // verus!
