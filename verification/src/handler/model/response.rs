//! What a user is answered.
use vstd::prelude::*;

use crate::types::{HistoryTuple, Id, InviteTuple, PlayerTuple};

verus! {

/// An answer to a request.
#[derive(Debug, Clone, PartialEq, Eq)]
pub enum Response {
    /// The version of the server's protocol and of the stored data.
    Version { server: u32, data: u32 },
    /// The asking user; `pending` is `Some(true)` for a user who was only
    /// invited.
    User { id: Id, pending: Option<bool> },
    Players(Vec<PlayerTuple>),
    Invites(Vec<InviteTuple>),
    History(Vec<HistoryTuple>),
    Done,
}

} // verus!
