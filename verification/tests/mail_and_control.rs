use elo::control::handler::user::{Step, UserCall, UserReply};
use elo::control::message::{self, Response};
use elo::control::{handler, Control};
use elo::mailbox::{self, AddressFault, Mailbox, Proto};
use elo::smtp::message::{build_message, BuildError};
use elo::smtp::{Payload, Smtp};
use elo::store;
use elo::types;

#[test]
fn mailboxes() {
    let m = Mailbox::new(String::from(" invited "), String::from(" iNviTeD@eMAil.cOm\n")).unwrap();
    assert_eq!(m.name(), "invited");
    assert_eq!(m.email(), "invited@email.com");
    assert_eq!(m.to_proto(), Proto { name: String::from("invited"), email: String::from("invited@email.com") });
    assert_eq!(Mailbox::new(String::new(), String::from("a@b.c")), Err(mailbox::Error::MissingName));
    assert_eq!(
        Mailbox::new(String::from("a"), String::new()),
        Err(mailbox::Error::Address(AddressFault::MissingParts))
    );
    assert_eq!(
        Mailbox::new(String::from("a"), String::from(" \t ")),
        Err(mailbox::Error::Address(AddressFault::MissingParts))
    );
    assert!(Mailbox::new(String::from("a"), String::from("a@")).is_err());
    assert_eq!(mailbox::Error::MissingName.message(), "Missing name");
}

#[test]
fn invitation_mail() {
    let m = Mailbox::new(String::from("invited"), String::from("invited@email.com")).unwrap();
    let email = build_message("PongElo", "https://pongelo.com", Payload::Invite(m.clone())).unwrap();
    assert_eq!(email.to, m);
    assert_eq!(email.subject, "Invitation to join PongElo");
    assert_eq!(
        email.text,
        "Hi invited!\n\nYou have been invited to join PongElo!\nTry it out at https://pongelo.com\n\nHappy gaming!\n"
    );
    let html = email.html.unwrap();
    assert!(html.contains("<title>Invitation to join PongElo</title>"));
    assert!(html.contains("<a href=\"https://pongelo.com\">https://pongelo.com</a>"));
}

#[test]
fn outcome_mail() {
    let inviter = Proto { name: String::from("tester"), email: String::from("tester@email.com") };
    let invitee = Proto { name: String::from("invited"), email: String::from("invited@email.com") };
    let email = build_message(
        "PongElo",
        "link",
        Payload::InviteOutcome { inviter: inviter.clone(), invitee: invitee.clone(), accepted: false },
    )
    .unwrap();
    assert_eq!(email.to.email(), "tester@email.com");
    assert_eq!(email.subject, "Invitation rejected by invited");
    assert_eq!(
        email.text,
        "Hi tester!\n\nThe user invited has rejected your invitation to join PongElo.\n\nHappy gaming!\n"
    );
    assert!(email.html.is_none());
    let bad = Proto { name: String::from("tester"), email: String::from("nowhere") };
    assert_eq!(
        build_message("PongElo", "link", Payload::InviteOutcome { inviter: bad.clone(), invitee, accepted: true }),
        Err(BuildError::InvalidEmail(bad))
    );
}

#[test]
fn senders_give_up_once_closed() {
    let mut smtp = Smtp::new(3u8);
    assert!(smtp.present());
    assert_eq!(smtp.channel(), Some(&3));
    smtp.delivered(true);
    assert!(smtp.present());
    smtp.delivered(false);
    assert!(!smtp.present());
    assert!(!Smtp::<u8>::empty().present());
}

#[test]
fn control_requests() {
    let control = Control::new(5);
    let user = handler::user(&control);
    assert!(matches!(user.plan(message::User::Info), Step::Call(UserCall::ById(5))));
    assert!(matches!(user.plan(message::User::List), Step::Call(UserCall::List)));
    match user.plan(message::User::Rename(String::from("n"))) {
        Step::Call(UserCall::Rename { id, name }) => assert_eq!((id, name.as_str()), (5, "n")),
        _ => panic!(),
    }
    assert!(matches!(
        user.plan(message::User::Invite(message::Invite { name: String::new(), email: String::from("a@b.c") })),
        Step::Refuse(message::Error::InvalidEmail(mailbox::Error::MissingName))
    ));
    assert_eq!(message::Request::User(message::User::Info).action(), "User::Info");
}

#[test]
fn control_answers() {
    let control = Control::new(5);
    let user = handler::user(&control);
    assert!(matches!(
        user.complete(UserCall::ById(5), Ok(UserReply::Found(None))),
        Err(message::Error::NotFound)
    ));
    let found = types::User { id: 5, name: String::from("a"), email: String::from("a@b.c") };
    assert!(matches!(
        user.complete(UserCall::ById(5), Ok(UserReply::Found(Some(found)))),
        Ok(o) if matches!(o.response, Response::User(ref u) if u.id == 5)
    ));
    let mailbox = Mailbox::new(String::from("b"), String::from("b@c.d")).unwrap();
    let o = user
        .complete(UserCall::Invite { inviter: 5, mailbox: mailbox.clone() }, Ok(UserReply::Invited(9)))
        .unwrap();
    assert!(matches!(o.response, Response::Id(9)));
    assert_eq!(
        o.push,
        Some(message::Push::Invited(message::Invite { name: String::from("b"), email: String::from("b@c.d") }))
    );
    assert_eq!(o.mail, Some(Payload::Invite(mailbox)));
    assert!(matches!(
        user.complete(UserCall::List, Err(store::Error::NotFound)),
        Err(message::Error::Store(store::Error::NotFound))
    ));
    let e = message::Error::NotFound.into_answer();
    assert_eq!((e.code, e.message.as_str()), (404, "Not Found"));
    assert!(!message::Error::Store(store::Error::NotFound).is_warn());
}
