//! The control service: an operator's requests about users.

pub mod handler;
pub mod message;
pub mod smtp;

use vstd::prelude::*;

use crate::types::Id;

verus! {

/// The control service of the operator `user_id`.
#[derive(Debug)]
pub struct Control {
    user_id: Id,
}

impl Control {
    /// The identifier of the operator.
    pub closed spec fn spec_user_id(&self) -> Id {
        self.user_id
    }

    /// The control service of the operator `user_id`.
    pub fn new(user_id: Id) -> (r: Self)
        ensures
            r.spec_user_id() == user_id,
    {
        Control { user_id }
    }

    /// The identifier of the operator.
    pub fn user_id(&self) -> (r: Id)
        ensures
            r == self.spec_user_id(),
    {
        self.user_id
    }
}

} // verus!
