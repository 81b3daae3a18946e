//! The decisions of the loop that serves one websocket.
pub mod message;
pub mod mode;

use vstd::prelude::*;

pub use mode::Mode;

use super::service;
use crate::status;
use crate::text::push_char;
use vstd::utf8::encode_utf8;

verus! {

/// What the serving loop does next.
#[derive(Debug, Clone, PartialEq, Eq)]
pub enum FlowControl<T> {
    /// Stops serving the socket.
    Break,
    /// Waits for the next event.
    Continue,
    /// Goes on with the value.
    Pass(T),
}

/// What the socket gave when it was read.
#[derive(Debug, Clone, PartialEq, Eq)]
pub enum Received {
    /// The socket is closed.
    Closed,
    /// The socket failed.
    Broken,
    Ping,
    Pong,
    /// The client asks to close.
    Close,
    Text(String),
    Binary(Vec<u8>),
}

/// The identifier of the request in `bytes`, read in the encoding `M`, where
/// the message can be read that far.
pub fn try_extract_id<M: Mode>(bytes: &[u8]) -> (r: Option<message::Id>)
    ensures
        r == M::spec_read_id(bytes@),
{
    M::read_id(bytes)
}

/// The lower-case hexadecimal digit of `d`.
pub open spec fn hex_digit(d: int) -> char {
    if d < 10 {
        (('0' as int) + d) as char
    } else {
        (('a' as int) + d - 10) as char
    }
}

/// `n` in four lower-case hexadecimal digits.
pub open spec fn hex4(n: u16) -> Seq<char> {
    seq![
        hex_digit(n as int / 4096),
        hex_digit((n as int / 256) % 16),
        hex_digit((n as int / 16) % 16),
        hex_digit(n as int % 16),
    ]
}

fn digit(d: u16) -> (c: char)
    requires
        d < 16,
    ensures
        c == hex_digit(d as int),
{
    if d < 10 {
        ((48 + d) as u8) as char
    } else {
        ((87 + d) as u8) as char
    }
}

/// The serving loop of one websocket: its name in the log, its user, and
/// its encoding.
#[derive(Debug)]
pub struct Layer<M: Mode> {
    id: String,
    user: String,
    mode: core::marker::PhantomData<M>,
}

impl<M: Mode> Layer<M> {
    /// The name of the socket in the log.
    pub closed spec fn spec_id(&self) -> Seq<char> {
        self.id@
    }

    /// The user served on the socket.
    pub closed spec fn spec_user(&self) -> Seq<char> {
        self.user@
    }

    /// The serving loop of a socket of `user`, named in the log by the
    /// number `tag` in four hexadecimal digits.
    pub fn new(tag: u16, user: String) -> (r: Self)
        ensures
            r.spec_id() == hex4(tag),
            r.spec_user() == user@,
    {
        let mut id = String::new();
        push_char(&mut id, digit(tag / 4096));
        push_char(&mut id, digit((tag / 256) % 16));
        push_char(&mut id, digit((tag / 16) % 16));
        push_char(&mut id, digit(tag % 16));
        assert(id@ =~= hex4(tag));
        Layer { id, user, mode: core::marker::PhantomData }
    }

    /// The name of the socket in the log.
    pub fn id(&self) -> (r: &str)
        ensures
            r@ == self.spec_id(),
    {
        self.id.as_str()
    }

    /// The user served on the socket.
    pub fn user(&self) -> (r: &str)
        ensures
            r@ == self.spec_user(),
    {
        self.user.as_str()
    }

    /// The name of the encoding of the socket.
    pub fn mode(&self) -> (r: &'static str)
        ensures
            r == M::spec_mode(),
    {
        M::mode()
    }

    /// What a read of the socket leads to: the bytes of a message to read,
    /// waiting on for control messages, stopping for a closed or broken
    /// socket.
    pub fn receive(&self, received: Received) -> (r: FlowControl<Vec<u8>>)
        ensures
            match received {
                Received::Closed => r == FlowControl::<Vec<u8>>::Break,
                Received::Broken => r == FlowControl::<Vec<u8>>::Break,
                Received::Ping => r == FlowControl::<Vec<u8>>::Continue,
                Received::Pong => r == FlowControl::<Vec<u8>>::Continue,
                Received::Close => r == FlowControl::<Vec<u8>>::Continue,
                Received::Text(t) => r matches FlowControl::Pass(b) && b@ == encode_utf8(t@),
                Received::Binary(b) => r == FlowControl::Pass(b),
            },
    {
        match received {
            Received::Closed => FlowControl::Break,
            Received::Broken => FlowControl::Break,
            Received::Ping => FlowControl::Continue,
            Received::Pong => FlowControl::Continue,
            Received::Close => FlowControl::Continue,
            Received::Text(t) => FlowControl::Pass(t.as_str().as_bytes_vec()),
            Received::Binary(b) => FlowControl::Pass(b),
        }
    }

    /// The error sent for a message that could not be read: a bad request,
    /// described by the reader's error, for the request identifier where the
    /// message can be read that far.
    pub fn refusal<R, P>(&self, bytes: &[u8], error: &str) -> (r: message::Message<R, P>)
        ensures
            r matches message::Message::Error(id, e) && id == M::spec_read_id(bytes@) && e.code
                == status::BAD_REQUEST && e.message@ == error@,
    {
        message::Message::Error(
            try_extract_id::<M>(bytes),
            service::Error::new(status::BAD_REQUEST, error),
        )
    }

    /// What follows a send: stopping where the message could not be
    /// encoded or the socket refused it, else waiting for the next event.
    pub fn sent<T>(&self, encoded: bool, delivered: bool) -> (r: FlowControl<T>)
        ensures
            r == if encoded && delivered {
                FlowControl::<T>::Continue
            } else {
                FlowControl::<T>::Break
            },
    {
        if encoded && delivered {
            FlowControl::Continue
        } else {
            FlowControl::Break
        }
    }
}

} // verus!
