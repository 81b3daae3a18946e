//! The Elo rating: how long a rating has been left alone.
use vstd::prelude::*;

use crate::types::Millis;

verus! {

/// The Elo rating system of the ladder.
#[derive(Debug, Copy, Clone)]
pub struct Elo;

/// Whole seconds of a point in time, rounded toward zero as integer
/// division in Rust does.
pub open spec fn whole_seconds(m: Millis) -> int {
    if m.0 >= 0 {
        m.0 as int / 1000
    } else {
        -((-(m.0 as int)) / 1000)
    }
}

impl Elo {
    /// The whole seconds from `last` to `curr`, each first cut to whole
    /// seconds, where the difference fits in an `i32`: the time over which
    /// a rating left alone drifts back to the default.
    pub fn elapsed_seconds(last: Millis, curr: Millis) -> (r: Option<i32>)
        ensures
            ({
                let d = whole_seconds(curr) - whole_seconds(last);
                if i32::MIN <= d <= i32::MAX {
                    r == Some(d as i32)
                } else {
                    r is None
                }
            }),
    {
        let c = curr.0 / 1000;
        let l = last.0 / 1000;
        let d = c - l;
        if d >= -2147483648 && d <= 2147483647 {
            Some(d as i32)
        } else {
            None
        }
    }
}

} // verus!
