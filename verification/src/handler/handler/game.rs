//! Requests about games.
use vstd::prelude::*;

use super::super::access::Access;
use super::super::model::{self, request, Error};
use super::{Handler, Step, StoreCall};

verus! {

/// The handling of a user's requests about games.
pub struct Game<'a, A: Access> {
    handler: &'a Handler<A>,
}

impl<'a, A: Access> Game<'a, A> {
    /// The handling of game requests by `handler`.
    pub fn new(handler: &'a Handler<A>) -> (r: Self)
        ensures
            *r.handler() == *handler,
    {
        Game { handler }
    }

    /// The handler that handles the requests.
    pub closed spec fn handler(&self) -> &'a Handler<A> {
        self.handler
    }

    /// What the handler does with a game request: registered players list,
    /// register, edit and trace games; invited users may not.
    pub fn plan(self, request: request::Game) -> (r: Step)
        ensures
            self.handler().planned(model::Request::Game(request), r),
            A::pending() ==> r matches Step::Refuse(Error::Forbidden),
            !A::pending() ==> match request {
                request::Game::List => r matches Step::Call(StoreCall::ListGames),
                request::Game::Register {
                    player,
                    opponent,
                    score,
                    opponent_score,
                    challenge,
                    millis,
                } => r == Step::Call(
                    StoreCall::RegisterGame {
                        player_one: player,
                        player_two: opponent,
                        score_one: score,
                        score_two: opponent_score,
                        challenge,
                        millis,
                    },
                ),
                request::Game::Update(g) => r == Step::Call(StoreCall::UpdateGame(g)),
                request::Game::History(id) => r == Step::Call(StoreCall::GameHistory(id)),
            },
    {
        if A::is_pending() {
            return Step::Refuse(Error::Forbidden);
        }
        match request {
            request::Game::List => Step::Call(StoreCall::ListGames),
            request::Game::Register { player, opponent, score, opponent_score, challenge, millis } =>
                Step::Call(
                StoreCall::RegisterGame {
                    player_one: player,
                    player_two: opponent,
                    score_one: score,
                    score_two: opponent_score,
                    challenge,
                    millis,
                },
            ),
            request::Game::Update(g) => Step::Call(StoreCall::UpdateGame(g)),
            request::Game::History(id) => Step::Call(StoreCall::GameHistory(id)),
        }
    }
}

} // verus!
