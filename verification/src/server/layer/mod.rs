//! The layers that every HTTP request passes.
pub mod auth;
pub mod logger;

use vstd::prelude::*;

verus! {

/// The layer that logs every request.
pub fn logger() -> (r: logger::Logger) {
    logger::Logger
}

} // verus!
