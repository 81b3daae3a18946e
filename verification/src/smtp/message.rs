//! The text of the mail that the server sends.
use vstd::prelude::*;

use super::payload::Payload;
use crate::mailbox::{self, mailbox_outcome, Mailbox};
use crate::text::join;

verus! {

/// A message ready to be handed to the mail transport.
#[derive(Debug, Clone, PartialEq, Eq)]
pub struct Email {
    /// The name and address the message goes to.
    pub to: Mailbox,
    pub subject: String,
    /// The plain-text body.
    pub text: String,
    /// The HTML alternative of the body, where the message has one.
    pub html: Option<String>,
}

/// Why a message could not be made.
#[derive(Debug, Clone, PartialEq, Eq)]
pub enum BuildError {
    /// The inviter's address, to which the answer would go, is refused.
    InvalidEmail(mailbox::Proto),
}

/// The subject of an invitation to the ladder `elo`.
pub open spec fn invite_subject(elo: Seq<char>) -> Seq<char> {
    "Invitation to join "@ + elo
}

/// The plain text of an invitation of `name` to the ladder `elo` at `link`.
pub open spec fn invite_text(name: Seq<char>, elo: Seq<char>, link: Seq<char>) -> Seq<char> {
    "Hi "@ + name + "!\n\nYou have been invited to join "@ + elo + "!\nTry it out at "@ + link
        + "\n\nHappy gaming!\n"@
}

/// The HTML text of an invitation of `name` to the ladder `elo` at `link`.
pub open spec fn invite_html(name: Seq<char>, elo: Seq<char>, link: Seq<char>) -> Seq<char> {
    "\n<!DOCTYPE html>\n<html lang = \"en\">\n<head>\n    <meta charset=\"UTF-8\">\n    <meta name=\"viewport\" content=\"width=device-width, initial-scale=1.0\">\n    <title>Invitation to join "@
        + elo + "</title>\n</head>\n<body>\n    <p>Hi "@ + name
        + "!</p>\n\n    <p>\n        You have been invited to join "@ + elo
        + "!\n        <br>\n        Try it out at <a href=\""@ + link + "\">"@ + link
        + "</a>\n    </p>\n\n    <p>\n        Happy gaming!\n    </p>\n</body>\n</html>\n"@
}

/// The word for an invitee's answer.
pub open spec fn outcome_word(accepted: bool) -> Seq<char> {
    if accepted {
        "accepted"@
    } else {
        "rejected"@
    }
}

/// The subject of the answer of `invitee` to an invitation.
pub open spec fn outcome_subject(accepted: bool, invitee: Seq<char>) -> Seq<char> {
    "Invitation "@ + outcome_word(accepted) + " by "@ + invitee
}

/// The text that tells the inviter `name` the answer of `invitee` to the
/// invitation to the ladder `elo`.
pub open spec fn outcome_text(name: Seq<char>, invitee: Seq<char>, accepted: bool, elo: Seq<char>) -> Seq<
    char,
> {
    "Hi "@ + name + "!\n\nThe user "@ + invitee + " has "@ + outcome_word(accepted)
        + " your invitation to join "@ + elo + ".\n\nHappy gaming!\n"@
}

/// The answer to an invitation is told as it was given: the mail of an
/// accepted invitation is subjected "Invitation accepted by" and the
/// invitee, and says the invitee "has accepted"; that of a rejected one says
/// "rejected" in both places; and the two words differ.
pub proof fn lemma_outcome_mail_tells_the_answer(name: Seq<char>, invitee: Seq<char>, elo: Seq<char>)
    ensures
        outcome_subject(true, invitee) == "Invitation accepted by "@ + invitee,
        outcome_subject(false, invitee) == "Invitation rejected by "@ + invitee,
        outcome_text(name, invitee, true, elo) == "Hi "@ + name + "!\n\nThe user "@ + invitee
            + " has "@ + "accepted"@ + " your invitation to join "@ + elo + ".\n\nHappy gaming!\n"@,
        outcome_text(name, invitee, false, elo) == "Hi "@ + name + "!\n\nThe user "@ + invitee
            + " has "@ + "rejected"@ + " your invitation to join "@ + elo + ".\n\nHappy gaming!\n"@,
        outcome_word(true) != outcome_word(false),
        outcome_subject(true, invitee) != outcome_subject(false, invitee),
{
    reveal_strlit("Invitation ");
    reveal_strlit(" by ");
    reveal_strlit("accepted");
    reveal_strlit("rejected");
    reveal_strlit("Invitation accepted by ");
    reveal_strlit("Invitation rejected by ");
    assert(outcome_subject(true, invitee) =~= "Invitation accepted by "@ + invitee);
    assert(outcome_subject(false, invitee) =~= "Invitation rejected by "@ + invitee);
    assert(outcome_word(true)[0] != outcome_word(false)[0]);
    assert(outcome_subject(true, invitee)[11] != outcome_subject(false, invitee)[11]);
}

/// Writes the message that a payload asks to send, from the ladder named
/// `elo` that lives at `link`: an invitation with a plain and an HTML body,
/// or the answer to an invitation, addressed to the inviter where its
/// address is accepted.
pub fn build_message(elo: &str, link: &str, payload: Payload) -> (r: Result<Email, BuildError>)
    ensures
        match payload {
            Payload::Invite(m) => r matches Ok(e) && e.to == m && e.subject@ == invite_subject(
                elo@,
            ) && e.text@ == invite_text(m.spec_name(), elo@, link@) && (e.html matches Some(h)
                && h@ == invite_html(m.spec_name(), elo@, link@)),
            Payload::InviteOutcome { inviter, invitee, accepted } => match mailbox_outcome(
                inviter.name@,
                inviter.email@,
            ) {
                Err(_) => r == Err::<Email, BuildError>(BuildError::InvalidEmail(inviter)),
                Ok((n, a)) => r matches Ok(e) && e.to.spec_name() == n && e.to.spec_email() == a
                    && e.subject@ == outcome_subject(accepted, invitee.name@) && e.text@
                    == outcome_text(inviter.name@, invitee.name@, accepted, elo@) && e.html is None
                    && e.subject@ == "Invitation "@ + (if accepted {
                    "accepted"@
                } else {
                    "rejected"@
                }) + " by "@ + invitee.name@,
            },
        },
{
    match payload {
        Payload::Invite(recipient) => {
            let name = recipient.name();
            let subject = join("Invitation to join ", elo);
            let t = join("Hi ", name);
            let t = join(t.as_str(), "!\n\nYou have been invited to join ");
            let t = join(t.as_str(), elo);
            let t = join(t.as_str(), "!\nTry it out at ");
            let t = join(t.as_str(), link);
            let text = join(t.as_str(), "\n\nHappy gaming!\n");
            let h = join(
                "\n<!DOCTYPE html>\n<html lang = \"en\">\n<head>\n    <meta charset=\"UTF-8\">\n    <meta name=\"viewport\" content=\"width=device-width, initial-scale=1.0\">\n    <title>Invitation to join ",
                elo,
            );
            let h = join(h.as_str(), "</title>\n</head>\n<body>\n    <p>Hi ");
            let h = join(h.as_str(), name);
            let h = join(h.as_str(), "!</p>\n\n    <p>\n        You have been invited to join ");
            let h = join(h.as_str(), elo);
            let h = join(h.as_str(), "!\n        <br>\n        Try it out at <a href=\"");
            let h = join(h.as_str(), link);
            let h = join(h.as_str(), "\">");
            let h = join(h.as_str(), link);
            let html = join(
                h.as_str(),
                "</a>\n    </p>\n\n    <p>\n        Happy gaming!\n    </p>\n</body>\n</html>\n",
            );
            Ok(Email { to: recipient, subject, text, html: Some(html) })
        },
        Payload::InviteOutcome { inviter, invitee, accepted } => {
            let recipient = match Mailbox::new(inviter.name.clone(), inviter.email.clone()) {
                Ok(m) => m,
                Err(_) => return Err(BuildError::InvalidEmail(inviter)),
            };
            let outcome = if accepted {
                "accepted"
            } else {
                "rejected"
            };
            let s = join("Invitation ", outcome);
            let s = join(s.as_str(), " by ");
            let subject = join(s.as_str(), invitee.name.as_str());
            let t = join("Hi ", inviter.name.as_str());
            let t = join(t.as_str(), "!\n\nThe user ");
            let t = join(t.as_str(), invitee.name.as_str());
            let t = join(t.as_str(), " has ");
            let t = join(t.as_str(), outcome);
            let t = join(t.as_str(), " your invitation to join ");
            let t = join(t.as_str(), elo);
            let text = join(t.as_str(), ".\n\nHappy gaming!\n");
            Ok(Email { to: recipient, subject, text, html: None })
        },
    }
}

} // verus!
