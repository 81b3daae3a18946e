//! The settings read from the command line.
use vstd::prelude::*;

use crate::text;

verus! {

/// The level of a log event, from the most to the least severe.
#[derive(Debug, Copy, Clone, PartialEq, Eq)]
pub enum Level {
    Error,
    Warn,
    Info,
    Debug,
    Trace,
}

/// How much the server logs: the least severe level that is logged, and
/// whether events of the libraries it uses are logged too.
#[derive(Debug, Copy, Clone, PartialEq, Eq)]
pub struct Verbosity {
    pub level: Level,
    pub internal: bool,
}

/// The verbosity of `count` repetitions of the verbosity flag.
pub open spec fn verbosity_of(count: u8) -> Verbosity {
    if count == 0 {
        Verbosity { level: Level::Error, internal: false }
    } else if count == 1 {
        Verbosity { level: Level::Warn, internal: false }
    } else if count == 2 {
        Verbosity { level: Level::Info, internal: false }
    } else if count == 3 {
        Verbosity { level: Level::Info, internal: true }
    } else if count == 4 {
        Verbosity { level: Level::Debug, internal: true }
    } else {
        Verbosity { level: Level::Trace, internal: true }
    }
}

/// The rank of a level, from the most severe.
pub open spec fn rank(l: Level) -> int {
    match l {
        Level::Error => 0,
        Level::Warn => 1,
        Level::Info => 2,
        Level::Debug => 3,
        Level::Trace => 4,
    }
}

impl From<u8> for Verbosity {
    /// The verbosity of `value` repetitions of the verbosity flag.
    fn from(value: u8) -> (r: Verbosity) {
        match value {
            0 => Verbosity { level: Level::Error, internal: false },
            1 => Verbosity { level: Level::Warn, internal: false },
            2 => Verbosity { level: Level::Info, internal: false },
            3 => Verbosity { level: Level::Info, internal: true },
            4 => Verbosity { level: Level::Debug, internal: true },
            _ => Verbosity { level: Level::Trace, internal: true },
        }
    }
}

impl vstd::std_specs::convert::FromSpecImpl<u8> for Verbosity {
    open spec fn obeys_from_spec() -> bool {
        true
    }

    open spec fn from_spec(v: u8) -> Verbosity {
        verbosity_of(v)
    }
}

/// More repetitions of the verbosity flag never log less: the level does
/// not become more severe, and the events of libraries, once logged, stay
/// logged.
pub proof fn lemma_verbosity_monotone(a: u8, b: u8)
    requires
        a <= b,
    ensures
        rank(verbosity_of(a).level) <= rank(verbosity_of(b).level),
        verbosity_of(a).internal ==> verbosity_of(b).internal,
{
}

/// The path of the database given on the command line, without a leading
/// `sqlite://` where it has one.
pub open spec fn database_path(db: Seq<char>) -> Seq<char> {
    let prefix = "sqlite://"@;
    if prefix.len() <= db.len() && db.subrange(0, prefix.len() as int) == prefix {
        db.subrange(prefix.len() as int, db.len() as int)
    } else {
        db
    }
}

/// The path of the database given on the command line, without a leading
/// `sqlite://` where it has one.
pub fn db_path(db: &str) -> (r: String)
    ensures
        r@ == database_path(db@),
{
    let prefix = "sqlite://";
    if text::starts_with(db, prefix) {
        let n = prefix.unicode_len();
        let len = db.unicode_len();
        db.substring_char(n, len).to_owned()
    } else {
        db.to_owned()
    }
}

} // verus!
