//! What every connected user is told when the ladder changes.
use vstd::prelude::*;

use crate::types::{self, Id};

verus! {

/// A change that every connected user is told of.
#[derive(Debug, Clone, PartialEq, Eq)]
pub enum Push {
    Player(Player),
}

/// The name, old and new, of a renamed player.
#[derive(Debug, Clone, PartialEq, Eq)]
pub struct Renamed {
    pub player: Id,
    pub old: String,
    pub new: String,
}

/// Changes among the players.
#[derive(Debug, Clone, PartialEq, Eq)]
pub enum Player {
    Renamed(Renamed),
    Invited(types::Invite),
    Uninvited(types::Invite),
    Joined(types::Player),
}

/// The name under which a push is logged.
pub open spec fn action_of(p: Push) -> &'static str {
    match p {
        Push::Player(Player::Renamed(_)) => "Player::Renamed",
        Push::Player(Player::Invited(_)) => "Player::Invited",
        Push::Player(Player::Uninvited(_)) => "Player::Uninvited",
        Push::Player(Player::Joined(_)) => "Player::Joined",
    }
}

impl Push {
    /// The name under which the push is logged.
    pub fn action(&self) -> (r: &'static str)
        ensures
            r == action_of(*self),
    {
        match self {
            Push::Player(Player::Renamed(_)) => "Player::Renamed",
            Push::Player(Player::Invited(_)) => "Player::Invited",
            Push::Player(Player::Uninvited(_)) => "Player::Uninvited",
            Push::Player(Player::Joined(_)) => "Player::Joined",
        }
    }
}

} // verus!
