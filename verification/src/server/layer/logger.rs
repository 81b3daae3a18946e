//! The layer that logs every request with its outcome.
use vstd::prelude::*;

use super::auth::{header_text, header_to_str};
use crate::args::Level;
use crate::status;

verus! {

/// The layer that logs every request.
#[derive(Debug, Copy, Clone)]
pub struct Logger;

/// The logger applied to an inner service.
#[derive(Debug, Clone)]
pub struct Middleware<S> {
    inner: S,
}

impl Logger {
    /// The logger applied to `inner`.
    pub fn layer<S>(&self, inner: S) -> (r: Middleware<S>)
        ensures
            r.spec_inner() == inner,
    {
        Middleware { inner }
    }
}

impl<S> Middleware<S> {
    /// The inner service.
    pub closed spec fn spec_inner(&self) -> S {
        self.inner
    }

    /// The inner service, to be driven in place.
    pub fn inner(&mut self) -> (r: &mut S)
        ensures
            *r == old(self).spec_inner(),
            final(self).spec_inner() == *final(r),
    {
        &mut self.inner
    }
}

/// A decimal digit.
pub open spec fn is_digit(b: u8) -> bool {
    48 <= b <= 57
}

/// The number that a sequence of decimal digits spells.
pub open spec fn decimal(s: Seq<u8>) -> int
    decreases s.len(),
{
    if s.len() == 0 {
        0
    } else {
        decimal(s.drop_last()) * 10 + (s.last() - 48)
    }
}

/// The digits of a number text: without a leading `+`.
pub open spec fn digits_of(s: Seq<u8>) -> Seq<u8> {
    if s.len() > 0 && s[0] == 43 {
        s.drop_first()
    } else {
        s
    }
}

/// The `usize` that `str::parse::<usize>` reads from a text: an optional
/// `+` followed by at least one decimal digit and nothing else, whose value
/// fits in `usize`.
pub open spec fn parsed_usize(s: Seq<u8>) -> Option<usize> {
    let d = digits_of(s);
    if d.len() > 0 && (forall|i: int| 0 <= i < d.len() ==> is_digit(#[trigger] d[i])) && decimal(d)
        <= usize::MAX {
        Some(decimal(d) as usize)
    } else {
        None
    }
}

proof fn lemma_decimal_grows(s: Seq<u8>, k: int)
    requires
        0 <= k <= s.len(),
        forall|i: int| 0 <= i < s.len() ==> is_digit(#[trigger] s[i]),
    ensures
        decimal(s.take(k)) <= decimal(s),
        decimal(s) >= 0,
    decreases s.len() - k,
{
    if k == s.len() {
        assert(s.take(k) =~= s);
        lemma_decimal_nonneg(s);
    } else {
        lemma_decimal_grows(s, k + 1);
        let t = s.take(k + 1);
        assert(t.drop_last() =~= s.take(k));
        lemma_decimal_nonneg(s.take(k));
    }
}

proof fn lemma_decimal_nonneg(s: Seq<u8>)
    requires
        forall|i: int| 0 <= i < s.len() ==> is_digit(#[trigger] s[i]),
    ensures
        decimal(s) >= 0,
    decreases s.len(),
{
    if s.len() > 0 {
        lemma_decimal_nonneg(s.drop_last());
    }
}

/// Reads a `usize` from the text of a number, as `str::parse::<usize>`
/// does: an optional `+`, then decimal digits only; `None` where the text
/// is not such a number or the number does not fit.
pub fn parse_usize(s: &[u8]) -> (r: Option<usize>)
    ensures
        r == parsed_usize(s@),
{
    let n = s.len();
    let start: usize = if n > 0 && s[0] == 43 {
        1
    } else {
        0
    };
    let ghost d = digits_of(s@);
    assert(d =~= s@.subrange(start as int, n as int));
    if start == n {
        return None;
    }
    let mut value: usize = 0;
    let mut i: usize = start;
    while i < n
        invariant
            n == s@.len(),
            start <= i <= n,
            d == s@.subrange(start as int, n as int),
            d == digits_of(s@),
            d.len() > 0,
            forall|j: int| 0 <= j < i - start ==> is_digit(#[trigger] d[j]),
            value == decimal(d.take(i - start)),
        decreases n - i,
    {
        let b = s[i];
        let ghost k = i - start;
        assert(d[k] == b);
        if b < 48 || b > 57 {
            assert(!is_digit(d[k as int]));
            return None;
        }
        let digit = (b - 48) as usize;
        assert(d.take(k + 1).drop_last() =~= d.take(k));
        if value > (usize::MAX - digit) / 10 {
            proof {
                assert(value * 10 + digit > usize::MAX) by (nonlinear_arith)
                    requires
                        value > (usize::MAX - digit) / 10,
                        digit <= 9,
                ;
                assert(d.take(k + 1).last() == b);
                assert(decimal(d.take(k + 1)) == decimal(d.take(k)) * 10 + (b - 48));
                if forall|j: int| 0 <= j < d.len() ==> is_digit(#[trigger] d[j]) {
                    lemma_decimal_grows(d, k + 1);
                }
            }
            return None;
        }
        assert(value * 10 + digit <= usize::MAX) by (nonlinear_arith)
            requires
                value <= (usize::MAX - digit) / 10,
                digit <= 9,
        ;
        value = value * 10 + digit;
        i = i + 1;
    }
    assert(d.take(d.len() as int) =~= d);
    Some(value)
}

/// The length that a `Content-Length` header value gives, where it is
/// readable text, a number, and more than zero.
pub open spec fn content_length(header: Option<Seq<u8>>) -> Option<usize> {
    match header {
        None => None,
        Some(h) => match header_text(h) {
            None => None,
            Some(_) => match parsed_usize(h) {
                Some(n) => if n > 0 {
                    Some(n)
                } else {
                    None
                },
                None => None,
            },
        },
    }
}

/// The length that a `Content-Length` header value gives, where it is
/// readable text, a number, and more than zero.
pub fn get_length(header: Option<&[u8]>) -> (r: Option<usize>)
    ensures
        r == content_length(
            match header {
                Some(h) => Some(h@),
                None => None,
            },
        ),
{
    match header {
        None => None,
        Some(h) => match header_to_str(h) {
            None => None,
            Some(_) => match parse_usize(h) {
                Some(n) => if n > 0 {
                    Some(n)
                } else {
                    None
                },
                None => None,
            },
        },
    }
}

/// A status code with what follows it in the log: a space and its reason
/// phrase, or nothing where it has none.
pub fn get_status_tuple(code: u16) -> (r: (u16, &'static str, &'static str))
    requires
        status::is_status(code),
    ensures
        r.0 == code,
        match status::reason_phrase(code) {
            Some(p) => r.1@ == " "@ && r.2@ == p,
            None => r.1@ == ""@ && r.2@ == ""@,
        },
{
    proof {
        reveal_strlit(" ");
        reveal_strlit("");
    }
    match status::canonical_reason(code) {
        Some(reason) => (code, " ", reason),
        None => (code, "", ""),
    }
}

/// The level at which the answer of a status code is logged: debug below
/// 400, a warning for client errors, an error from 500 on.
pub open spec fn level_of(code: u16) -> Level {
    if code <= 399 {
        Level::Debug
    } else if code <= 499 {
        Level::Warn
    } else {
        Level::Error
    }
}

/// The level at which the answer of a status code is logged.
pub fn log_level(code: u16) -> (r: Level)
    ensures
        r == level_of(code),
{
    if code <= 399 {
        Level::Debug
    } else if code <= 499 {
        Level::Warn
    } else {
        Level::Error
    }
}

/// What the log records of a request while it is served: its method,
/// path, user and length, beside the inner future that serves it.
#[derive(Debug)]
pub struct Future<F> {
    pub method: String,
    pub path: String,
    pub user: Option<String>,
    pub length: Option<usize>,
    pub inner: F,
}

impl<F> Future<F> {
    /// The record of a request of the given method and path, with its user
    /// header and its length header as they came, served by `inner`.
    pub fn new(
        method: String,
        path: String,
        user: Option<&[u8]>,
        length: Option<&[u8]>,
        inner: F,
    ) -> (r: Self)
        ensures
            r.method == method,
            r.path == path,
            r.inner == inner,
            r.length == content_length(
                match length {
                    Some(h) => Some(h@),
                    None => None,
                },
            ),
            match user {
                None => r.user is None,
                Some(u) => match header_text(u@) {
                    None => r.user is None,
                    Some(t) => r.user matches Some(s) && s@ == t,
                },
            },
    {
        let user = match user {
            None => None,
            Some(u) => header_to_str(u),
        };
        Future { method, path, user, length: get_length(length), inner }
    }
}

} // verus!
