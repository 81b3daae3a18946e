//! The operator's requests about users.
use vstd::prelude::*;

use super::super::message::{self, Error, Push, Response};
use super::super::Control;
use crate::mailbox::{mailbox_outcome, Mailbox};
use crate::smtp::Payload;
use crate::store;
use crate::types::{self, Id};

verus! {

/// A call on the store that a request needs.
#[derive(Debug)]
pub enum UserCall {
    ById(Id),
    Rename { id: Id, name: String },
    List,
    ByEmail(String),
    Invite { inviter: Id, mailbox: Mailbox },
}

/// What the control service does with a request.
#[derive(Debug)]
pub enum Step {
    Refuse(Error),
    Call(UserCall),
}

/// The store's answer to a call.
#[derive(Debug)]
pub enum UserReply {
    /// The user looked up, where there is one.
    Found(Option<types::User>),
    /// The renamed user, where there is one.
    Renamed(Option<Id>),
    Users(Vec<types::User>),
    /// The identifier of the new invitation.
    Invited(Id),
}

/// What a handled request yields.
#[derive(Debug)]
pub struct Outcome {
    pub response: Response,
    pub push: Option<Push>,
    pub mail: Option<Payload>,
}

/// The handling of the operator's requests about users.
pub struct User<'a> {
    control: &'a Control,
}

/// The store's answer fits the call.
pub open spec fn answers(call: UserCall, reply: UserReply) -> bool {
    match (call, reply) {
        (UserCall::ById(_), UserReply::Found(_)) => true,
        (UserCall::ByEmail(_), UserReply::Found(_)) => true,
        (UserCall::Rename { .. }, UserReply::Renamed(_)) => true,
        (UserCall::List, UserReply::Users(_)) => true,
        (UserCall::Invite { .. }, UserReply::Invited(_)) => true,
        _ => false,
    }
}

impl<'a> User<'a> {
    /// The service whose operator asks.
    pub closed spec fn control(&self) -> &'a Control {
        self.control
    }

    /// The handling of the requests of `control`'s operator.
    pub fn new(control: &'a Control) -> (r: Self)
        ensures
            *r.control() == *control,
    {
        User { control }
    }

    /// What the service does with a request: a lookup, a rename of the
    /// operator, a listing, or an invitation once its mailbox is valid.
    pub fn plan(&self, request: message::User) -> (r: Step)
        ensures
            match request {
                message::User::Info => r matches Step::Call(UserCall::ById(id)) && id
                    == self.control().spec_user_id(),
                message::User::Rename(name) => r matches Step::Call(UserCall::Rename { id, name: n })
                    && id == self.control().spec_user_id() && n == name,
                message::User::List => r matches Step::Call(UserCall::List),
                message::User::Get(email) => r matches Step::Call(UserCall::ByEmail(e)) && e == email,
                message::User::Invite(i) => match mailbox_outcome(i.name@, i.email@) {
                    Err(e) => r matches Step::Refuse(Error::InvalidEmail(f)) && f == e,
                    Ok((n, a)) => r matches Step::Call(UserCall::Invite { inviter, mailbox })
                        && inviter == self.control().spec_user_id() && mailbox.spec_name() == n
                        && mailbox.spec_email() == a,
                },
            },
    {
        let id = self.control.user_id();
        match request {
            message::User::Info => Step::Call(UserCall::ById(id)),
            message::User::Rename(name) => Step::Call(UserCall::Rename { id, name }),
            message::User::List => Step::Call(UserCall::List),
            message::User::Get(email) => Step::Call(UserCall::ByEmail(email)),
            message::User::Invite(i) => match Mailbox::new(i.name, i.email) {
                Ok(mailbox) => Step::Call(UserCall::Invite { inviter: id, mailbox }),
                Err(e) => Step::Refuse(Error::InvalidEmail(e)),
            },
        }
    }

    /// Turns the store's answer to `call` into the outcome: a missing user
    /// is `NotFound`; an invitation is announced and mailed.
    pub fn complete(&self, call: UserCall, reply: Result<UserReply, store::Error>) -> (r: Result<
        Outcome,
        Error,
    >)
        requires
            reply matches Ok(x) ==> answers(call, x),
        ensures
            match reply {
                Err(e) => r == Err::<Outcome, Error>(Error::Store(e)),
                Ok(UserReply::Found(None)) => r == Err::<Outcome, Error>(Error::NotFound),
                Ok(UserReply::Found(Some(u))) => r matches Ok(o) && o.response == Response::User(u)
                    && o.push is None && o.mail is None,
                Ok(UserReply::Renamed(None)) => r == Err::<Outcome, Error>(Error::NotFound),
                Ok(UserReply::Renamed(Some(id))) => r matches Ok(o) && o.response == Response::Id(id)
                    && o.push is None && o.mail is None,
                Ok(UserReply::Users(us)) => r matches Ok(o) && o.response == Response::Users(us)
                    && o.push is None && o.mail is None,
                Ok(UserReply::Invited(id)) => call matches UserCall::Invite { mailbox, .. } && (
                r matches Ok(o) && o.response == Response::Id(id) && (o.push matches Some(
                    Push::Invited(i),
                ) && i.name@ == mailbox.spec_name() && i.email@ == mailbox.spec_email())
                    && o.mail == Some(Payload::Invite(mailbox))),
            },
    {
        let reply = match reply {
            Err(e) => return Err(Error::Store(e)),
            Ok(x) => x,
        };
        match reply {
            UserReply::Found(None) => Err(Error::NotFound),
            UserReply::Found(Some(u)) => Ok(
                Outcome { response: Response::User(u), push: None, mail: None },
            ),
            UserReply::Renamed(None) => Err(Error::NotFound),
            UserReply::Renamed(Some(id)) => Ok(
                Outcome { response: Response::Id(id), push: None, mail: None },
            ),
            UserReply::Users(us) => Ok(Outcome { response: Response::Users(us), push: None, mail: None }),
            UserReply::Invited(id) => {
                let mailbox = match call {
                    UserCall::Invite { mailbox, .. } => mailbox,
                    _ => {
                        assert(false);
                        return Err(Error::NotFound);
                    },
                };
                let push = Push::Invited(
                    message::Invite {
                        name: String::from_str(mailbox.name()),
                        email: String::from_str(mailbox.email()),
                    },
                );
                Ok(
                    Outcome {
                        response: Response::Id(id),
                        push: Some(push),
                        mail: Some(Payload::Invite(mailbox)),
                    },
                )
            },
        }
    }
}

} // verus!
