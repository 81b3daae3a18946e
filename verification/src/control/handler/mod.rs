//! The handling of the operator's requests.

pub mod user;

use vstd::prelude::*;

verus! {

/// The handling of the operator's requests about users.
pub fn user(control: &super::Control) -> (r: user::User<'_>)
    ensures
        *r.control() == *control,
{
    user::User::new(control)
}

} // verus!
