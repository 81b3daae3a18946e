//! The layer that lets only known users through.
use vstd::prelude::*;

use crate::handler::access;
use crate::text;

verus! {

/// A source of the users that the layer lets through.
pub trait Provider {
    /// What the provider knows of a user it lets through.
    type Ok;
}

impl Provider for access::Auth {
    type Ok = access::UserAccess;
}

/// Why a request was refused as forbidden.
#[derive(Debug, Copy, Clone, PartialEq, Eq)]
pub enum Refusal {
    /// The request names no user.
    MissingHeader,
    /// The user header is not visible ASCII text.
    UnreadableHeader,
    /// The provider does not know the user.
    Unauthorized,
    /// The provider failed.
    ProviderFailed,
}

/// What the layer does with a request.
#[derive(Debug)]
pub enum Admission<T> {
    /// Lets the request through with what the provider knows of its user.
    Admit(T),
    /// Answers it with `403 Forbidden`.
    Forbid(Refusal),
}

/// A byte of a header value that can be read as text: visible ASCII or a
/// tab.
pub open spec fn visible(b: u8) -> bool {
    (32 <= b && b < 127) || b == 9
}

/// The header value read as text, where every byte is visible.
pub open spec fn header_text(bytes: Seq<u8>) -> Option<Seq<char>> {
    if forall|i: int| 0 <= i < bytes.len() ==> visible(#[trigger] bytes[i]) {
        Some(bytes.map_values(|b: u8| b as char))
    } else {
        None
    }
}

/// A header value as text, where every byte is visible ASCII or a tab, as
/// `HeaderValue::to_str` reads it.
pub fn header_to_str(bytes: &[u8]) -> (r: Option<String>)
    ensures
        match header_text(bytes@) {
            Some(t) => r matches Some(s) && s@ == t,
            None => r is None,
        },
{
    let n = bytes.len();
    let mut out = String::new();
    let mut i: usize = 0;
    while i < n
        invariant
            n == bytes@.len(),
            i <= n,
            forall|j: int| 0 <= j < i ==> visible(#[trigger] bytes@[j]),
            out@ == bytes@.take(i as int).map_values(|b: u8| b as char),
        decreases n - i,
    {
        let b = bytes[i];
        if !((32 <= b && b < 127) || b == 9) {
            return None;
        }
        text::push_char(&mut out, b as char);
        assert(bytes@.take(i + 1) =~= bytes@.take(i as int).push(b));
        assert(out@ =~= bytes@.take(i + 1).map_values(|b: u8| b as char));
        i = i + 1;
    }
    assert(bytes@.take(n as int) =~= bytes@);
    Some(out)
}

/// The layer that lets through only requests of users that the provider
/// knows.
#[derive(Debug, Clone)]
pub struct Auth<P: Provider> {
    provider: P,
}

impl<P: Provider> Auth<P> {
    /// The layer of the given provider.
    pub fn new(provider: P) -> (r: Self)
        ensures
            r.spec_provider() == provider,
    {
        Auth { provider }
    }

    /// The provider of the layer.
    pub closed spec fn spec_provider(&self) -> P {
        self.provider
    }

    /// The provider of the layer.
    pub fn provider(&self) -> (r: &P)
        ensures
            *r == self.spec_provider(),
    {
        &self.provider
    }

    /// The user that a request names in its user header: `MissingHeader`
    /// without the header, `UnreadableHeader` where it is not visible text.
    pub fn user(&self, header: Option<&[u8]>) -> (r: Result<String, Refusal>)
        ensures
            match header {
                None => r == Err::<String, Refusal>(Refusal::MissingHeader),
                Some(h) => match header_text(h@) {
                    None => r == Err::<String, Refusal>(Refusal::UnreadableHeader),
                    Some(t) => r matches Ok(s) && s@ == t,
                },
            },
    {
        match header {
            None => Err(Refusal::MissingHeader),
            Some(h) => match header_to_str(h) {
                None => Err(Refusal::UnreadableHeader),
                Some(s) => Ok(s),
            },
        }
    }

    /// What the layer does once the provider answered about the user: lets
    /// a known user through, forbids an unknown one and any request the
    /// provider failed on.
    pub fn decide<E>(&self, answer: Result<Option<P::Ok>, E>) -> (r: Admission<P::Ok>)
        ensures
            match answer {
                Ok(Some(u)) => r == Admission::Admit(u),
                Ok(None) => r == Admission::<P::Ok>::Forbid(Refusal::Unauthorized),
                Err(_) => r == Admission::<P::Ok>::Forbid(Refusal::ProviderFailed),
            },
    {
        match answer {
            Ok(Some(u)) => Admission::Admit(u),
            Ok(None) => Admission::Forbid(Refusal::Unauthorized),
            Err(_) => Admission::Forbid(Refusal::ProviderFailed),
        }
    }
}

/// The layer applied to an inner service, with the clone of the inner
/// service that is ready for the next request.
#[derive(Debug, Clone)]
pub struct Middleware<P: Provider, I> {
    auth: Auth<P>,
    inner: I,
    ready_inner: Option<I>,
}

impl<P: Provider, I: Clone> Middleware<P, I> {
    /// The inner service.
    pub closed spec fn spec_inner(&self) -> I {
        self.inner
    }

    /// The clone of the inner service that is ready for the next request.
    pub closed spec fn spec_ready(&self) -> Option<I> {
        self.ready_inner
    }

    /// The layer `auth` applied to `inner`, with no clone ready yet.
    pub fn new(auth: Auth<P>, inner: I) -> (r: Self)
        ensures
            r.spec_auth() == auth,
            r.spec_inner() == inner,
            r.spec_ready() is None,
    {
        Middleware { auth, inner, ready_inner: None }
    }

    /// The layer of the middleware.
    pub closed spec fn spec_auth(&self) -> Auth<P> {
        self.auth
    }

    /// The layer of the middleware.
    pub fn auth(&self) -> (r: &Auth<P>)
        ensures
            *r == self.spec_auth(),
    {
        &self.auth
    }

    /// Makes a clone of the inner service ready, where none is.
    pub fn prepare(&mut self)
        ensures
            final(self).spec_auth() == old(self).spec_auth(),
            final(self).spec_inner() == old(self).spec_inner(),
            old(self).spec_ready() is Some ==> final(self).spec_ready() == old(self).spec_ready(),
            old(self).spec_ready() is None ==> (final(self).spec_ready() matches Some(c) && cloned(
                old(self).spec_inner(),
                c,
            )),
    {
        if self.ready_inner.is_none() {
            self.ready_inner = Some(self.inner.clone());
        }
    }

    /// Takes the ready clone of the inner service, for one request.
    pub fn take_ready(&mut self) -> (r: I)
        requires
            old(self).spec_ready() is Some,
        ensures
            r == old(self).spec_ready()->0,
            final(self).spec_ready() is None,
            final(self).spec_inner() == old(self).spec_inner(),
            final(self).spec_auth() == old(self).spec_auth(),
    {
        let ready = self.ready_inner.take();
        match ready {
            Some(i) => i,
            None => {
                assert(false);
                self.inner.clone()
            },
        }
    }

    /// Puts back a clone of the inner service that is ready.
    pub fn put_ready(&mut self, ready: I)
        ensures
            final(self).spec_ready() == Some(ready),
            final(self).spec_inner() == old(self).spec_inner(),
            final(self).spec_auth() == old(self).spec_auth(),
    {
        self.ready_inner = Some(ready);
    }
}

} // verus!
