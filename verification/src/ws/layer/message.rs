//! The messages on a websocket.
use vstd::prelude::*;

use super::super::service;

verus! {

/// The identifier that a client gives a request, and that its answer
/// carries back.
pub type Id = u32;

/// A message from the server.
#[derive(Debug, Clone, PartialEq, Eq)]
pub enum Message<Response, Push> {
    /// The answer to the request of the given identifier.
    Answer(Id, Response),
    /// An error, for the request of the identifier where it is known.
    Error(Option<Id>, service::Error),
    /// A change that every connected user is told of.
    Push(Push),
}

/// A request from a client: its identifier and what it asks.
#[derive(Debug, Clone, PartialEq, Eq)]
pub struct Request<T> {
    pub id: Id,
    pub payload: T,
}

/// Only the identifier of a request, read from a message that could not be
/// read whole.
#[derive(Debug, Copy, Clone, PartialEq, Eq)]
pub struct OnlyId {
    pub id: Id,
}

impl<Response, Push> Message<Response, Push> {
    /// The message that answers the request `id`: its response, or the
    /// error answer of its failure.
    pub fn reply(id: Id, result: Result<Response, service::Error>) -> (r: Self)
        ensures
            match result {
                Ok(ok) => r == Message::<Response, Push>::Answer(id, ok),
                Err(e) => r == Message::<Response, Push>::Error(Some(id), e),
            },
    {
        match result {
            Ok(ok) => Message::Answer(id, ok),
            Err(e) => Message::Error(Some(id), e),
        }
    }
}

} // verus!
