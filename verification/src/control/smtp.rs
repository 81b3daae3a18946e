//! The mail that the control service may send.
use vstd::prelude::*;

use crate::types::Id;

verus! {

/// A message of the control service.
#[derive(Debug, Clone, PartialEq, Eq)]
pub enum Payload {
    /// An invitation to the given address.
    Invite(String),
    _Challenge(Id),
    _Match(Id),
}

} // verus!
