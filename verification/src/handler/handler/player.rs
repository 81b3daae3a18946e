//! Requests about players.
use vstd::prelude::*;

use super::super::access::Access;
use super::super::model::{self, request, Error, Response};
use super::{forbidden, Handler, Step, StoreCall};

verus! {

/// The handling of a user's requests about players.
pub struct Player<'a, A: Access> {
    handler: &'a Handler<A>,
}

impl<'a, A: Access> Player<'a, A> {
    /// The handling of player requests by `handler`.
    pub fn new(handler: &'a Handler<A>) -> (r: Self)
        ensures
            *r.handler() == *handler,
    {
        Player { handler }
    }

    /// The handler that handles the requests.
    pub closed spec fn handler(&self) -> &'a Handler<A> {
        self.handler
    }

    /// What the handler does with a player request: who the user is, or a
    /// listing or rename for registered players only.
    pub fn plan(self, request: request::Player) -> (r: Step)
        ensures
            self.handler().planned(model::Request::Player(request), r),
    {
        let user = self.handler.user();
        let pending = A::is_pending();
        match request {
            request::Player::Id => Step::Reply(
                Response::User {
                    id: user.id(),
                    pending: if pending {
                        Some(true)
                    } else {
                        None
                    },
                },
            ),
            request::Player::List => {
                if pending {
                    Step::Refuse(Error::Forbidden)
                } else {
                    Step::Call(StoreCall::ListPlayers)
                }
            },
            request::Player::Rename(name) => {
                if pending {
                    Step::Refuse(Error::Forbidden)
                } else {
                    Step::Call(StoreCall::RenamePlayer { id: user.id(), name })
                }
            },
        }
    }
}

} // verus!
