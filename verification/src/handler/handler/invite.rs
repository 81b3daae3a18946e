//! Requests about invitations.
use vstd::prelude::*;

use super::super::access::Access;
use super::super::model::{self, request, Error};
use super::{Handler, Step, StoreCall};
use crate::mailbox::Mailbox;

verus! {

/// The handling of a user's requests about invitations.
pub struct Invite<'a, A: Access> {
    handler: &'a Handler<A>,
}

impl<'a, A: Access> Invite<'a, A> {
    /// The handling of invitation requests by `handler`.
    pub fn new(handler: &'a Handler<A>) -> (r: Self)
        ensures
            *r.handler() == *handler,
    {
        Invite { handler }
    }

    /// The handler that handles the requests.
    pub closed spec fn handler(&self) -> &'a Handler<A> {
        self.handler
    }

    /// What the handler does with an invitation request: a registered
    /// player lists, makes and cancels invitations; an invited user accepts
    /// or rejects its own.
    pub fn plan(self, request: request::Invite) -> (r: Step)
        ensures
            self.handler().planned(model::Request::Invite(request), r),
    {
        let user = self.handler.user();
        let pending = A::is_pending();
        match request {
            request::Invite::List => {
                if pending {
                    Step::Refuse(Error::Forbidden)
                } else {
                    Step::Call(StoreCall::ListInvites)
                }
            },
            request::Invite::Player(p) => {
                if pending {
                    Step::Refuse(Error::Forbidden)
                } else {
                    match Mailbox::new(p.name, p.email) {
                        Ok(mailbox) => Step::Call(StoreCall::Invite { inviter: user.id(), mailbox }),
                        Err(e) => Step::Refuse(Error::InvalidEmail(e)),
                    }
                }
            },
            request::Invite::Cancel(id) => {
                if pending {
                    Step::Refuse(Error::Forbidden)
                } else {
                    Step::Call(StoreCall::CancelInvite { inviter: user.id(), id })
                }
            },
            request::Invite::Accept => {
                if pending {
                    Step::Call(StoreCall::AcceptInvite { id: user.id(), email: user.email().clone() })
                } else {
                    Step::Refuse(Error::Forbidden)
                }
            },
            request::Invite::Reject => {
                if pending {
                    Step::Call(StoreCall::RejectInvite { id: user.id(), email: user.email().clone() })
                } else {
                    Step::Refuse(Error::Forbidden)
                }
            },
        }
    }
}

} // verus!
