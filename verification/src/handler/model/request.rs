//! What a user can ask.
use vstd::prelude::*;

use crate::types::{GameRecord, Id, Millis};

verus! {

/// A request of a user.
#[derive(Debug, Clone, PartialEq, Eq)]
pub enum Request {
    /// The version of the server and of its data.
    Version,
    Player(Player),
    Invite(Invite),
    Game(Game),
}

/// Requests about players.
#[derive(Debug, Clone, PartialEq, Eq)]
pub enum Player {
    /// Who the asking user is.
    Id,
    List,
    Rename(String),
}

/// The name and email of a player to invite.
#[derive(Debug, Clone, PartialEq, Eq)]
pub struct InvitePlayer {
    pub name: String,
    pub email: String,
}

/// Requests about invitations.
#[derive(Debug, Clone, PartialEq, Eq)]
pub enum Invite {
    List,
    Player(InvitePlayer),
    Cancel(Id),
    Accept,
    Reject,
}

/// Requests about games.
#[derive(Debug, Clone, PartialEq, Eq)]
pub enum Game {
    List,
    Register {
        player: Id,
        opponent: Id,
        score: u8,
        opponent_score: u8,
        challenge: bool,
        millis: Millis,
    },
    Update(GameRecord),
    History(Id),
}

/// The name under which a request is logged.
pub open spec fn action_of(r: Request) -> &'static str {
    match r {
        Request::Version => "Version",
        Request::Player(p) => match p {
            Player::Id => "Player::Id",
            Player::List => "Player::List",
            Player::Rename(_) => "Player::Renmae",
        },
        Request::Invite(i) => match i {
            Invite::List => "Invite::List",
            Invite::Player(_) => "Invite::Player",
            Invite::Cancel(_) => "Invite::Cancel",
            Invite::Accept => "Invite::Accept",
            Invite::Reject => "Invite::Reject",
        },
        Request::Game(g) => match g {
            Game::List => "Game::List",
            Game::Register { .. } => "Game::Register",
            Game::Update(_) => "Game::Update",
            Game::History(_) => "Game::History",
        },
    }
}

impl Request {
    /// The name under which the request is logged.
    pub fn action(&self) -> (r: &'static str)
        ensures
            r == action_of(*self),
    {
        match self {
            Request::Version => "Version",
            Request::Player(p) => match p {
                Player::Id => "Player::Id",
                Player::List => "Player::List",
                Player::Rename(_) => "Player::Renmae",
            },
            Request::Invite(i) => match i {
                Invite::List => "Invite::List",
                Invite::Player(_) => "Invite::Player",
                Invite::Cancel(_) => "Invite::Cancel",
                Invite::Accept => "Invite::Accept",
                Invite::Reject => "Invite::Reject",
            },
            Request::Game(g) => match g {
                Game::List => "Game::List",
                Game::Register { .. } => "Game::Register",
                Game::Update(_) => "Game::Update",
                Game::History(_) => "Game::History",
            },
        }
    }
}

} // verus!
