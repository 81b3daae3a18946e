//! The sender of mail: a channel to the worker that talks to the mail
//! server, which is given up once it fails.
use vstd::prelude::*;

verus! {

/// The sender of mail over a channel `T` to the mail worker, or a sender
/// that sends nothing.
#[derive(Debug, Clone)]
pub struct Smtp<T> {
    tx: Option<T>,
}

impl<T> Smtp<T> {
    /// The channel to the mail worker, where there is one.
    pub closed spec fn spec_tx(&self) -> Option<T> {
        self.tx
    }

    /// A sender over the channel `tx`.
    pub fn new(tx: T) -> (r: Self)
        ensures
            r.spec_tx() == Some(tx),
    {
        Smtp { tx: Some(tx) }
    }

    /// A sender that sends nothing.
    pub fn empty() -> (r: Self)
        ensures
            r.spec_tx() is None,
    {
        Smtp { tx: None }
    }

    /// Whether mail is sent at all.
    pub fn present(&self) -> (r: bool)
        ensures
            r == self.spec_tx() is Some,
    {
        self.tx.is_some()
    }

    /// The channel to send a message on, where mail is sent.
    pub fn channel(&self) -> (r: Option<&T>)
        ensures
            match self.spec_tx() {
                Some(t) => r == Some(&t),
                None => r is None,
            },
    {
        match &self.tx {
            Some(t) => Some(t),
            None => None,
        }
    }

    /// Records whether the worker took the last message: once the channel
    /// is closed, the sender sends nothing more.
    pub fn delivered(&mut self, taken: bool)
        ensures
            final(self).spec_tx() == if taken {
                old(self).spec_tx()
            } else {
                None
            },
    {
        if !taken {
            self.tx = None;
        }
    }
}

} // verus!
