//! The mail that a handled request asks to send.
use vstd::prelude::*;

use crate::mailbox;

verus! {

/// A message to send.
#[derive(Debug, Clone, PartialEq, Eq)]
pub enum Payload {
    /// Invites the owner of the mailbox to join.
    Invite(mailbox::Mailbox),
    /// Tells an inviter how the invitee answered.
    InviteOutcome { inviter: mailbox::Proto, invitee: mailbox::Proto, accepted: bool },
}

} // verus!
