use elo::handler::access::{Auth, Pending, Regular, User, UserAccess};
use elo::handler::handler::{Handler, Step, StoreCall, StoreReply, VERSION};
use elo::handler::model::request::{Game, Invite, InvitePlayer, Player};
use elo::handler::model::{push, Error, Push, Request, Response};
use elo::mailbox::{self, AddressFault, Mailbox};
use elo::smtp::Payload;
use elo::store;
use elo::types::{self, GameRecord, Millis};

const WHITE_SPACE: &str = " \t\n\t ";

fn regular() -> Handler<Regular> {
    Handler::new(User::new(1, String::from("tester"), String::from("tester@email.com")))
}

fn pending() -> Handler<Pending> {
    Handler::new(User::new(2, String::from("invited"), String::from("invited@email.com")))
}

fn forbidden(step: Step) -> bool {
    matches!(step, Step::Refuse(Error::Forbidden))
}

fn invite_player(name: &str, email: &str) -> Request {
    Request::Invite(Invite::Player(InvitePlayer {
        name: String::from(name),
        email: String::from(email),
    }))
}

#[test]
fn pending_only() {
    let handler = regular();
    assert!(forbidden(handler.plan(Request::Invite(Invite::Accept))));
    assert!(forbidden(handler.plan(Request::Invite(Invite::Reject))));
}

#[test]
fn forbidden_regular() {
    pending_only();
}

#[test]
fn regular_only() {
    let handler = pending();
    assert!(forbidden(handler.plan(Request::Player(Player::List))));
    assert!(forbidden(handler.plan(Request::Player(Player::Rename(String::new())))));
    assert!(forbidden(handler.plan(Request::Game(Game::List))));
    assert!(forbidden(handler.plan(Request::Game(Game::Register {
        player: 0,
        opponent: 0,
        score: 0,
        opponent_score: 0,
        challenge: false,
        millis: Millis(0),
    }))));
    assert!(forbidden(handler.plan(Request::Invite(Invite::List))));
    assert!(forbidden(handler.plan(Request::Invite(Invite::Cancel(0)))));
    assert!(forbidden(handler.plan(invite_player("", ""))));
}

#[test]
fn invite_forbidden() {
    let handler = pending();
    assert!(forbidden(handler.plan(Request::Invite(Invite::List))));
    assert!(forbidden(handler.plan(Request::Invite(Invite::Cancel(0)))));
    assert!(forbidden(handler.plan(invite_player("", ""))));
}

#[test]
fn player_forbidden() {
    let handler = pending();
    assert!(forbidden(handler.plan(Request::Player(Player::List))));
    assert!(forbidden(handler.plan(Request::Player(Player::Rename(String::from("x"))))));
}

#[test]
fn game_forbidden() {
    let handler = pending();
    assert!(forbidden(handler.plan(Request::Game(Game::History(1)))));
    assert!(forbidden(handler.plan(Request::Game(Game::Update(GameRecord {
        id: 1,
        player_one: 1,
        player_two: 2,
        score_one: 11,
        score_two: 0,
        challenge: false,
        deleted: false,
        millis: Millis(0),
    })))));
}

#[test]
fn forbidden_id() {
    match regular().plan(Request::Player(Player::Id)) {
        Step::Reply(Response::User { id, pending }) => {
            assert_eq!(id, 1);
            assert_eq!(pending, None);
        }
        _ => panic!(),
    }
    match pending().plan(Request::Player(Player::Id)) {
        Step::Reply(Response::User { id, pending }) => {
            assert_eq!(id, 2);
            assert_eq!(pending, Some(true));
        }
        _ => panic!(),
    }
}

#[test]
fn invite_invalid_input() {
    let handler = regular();
    let missing_parts = Error::InvalidEmail(mailbox::Error::Address(AddressFault::MissingParts));
    assert!(matches!(
        handler.plan(invite_player("", "invited@email.com")),
        Step::Refuse(Error::InvalidEmail(mailbox::Error::MissingName))
    ));
    assert!(matches!(
        handler.plan(invite_player(WHITE_SPACE, "invited@email.com")),
        Step::Refuse(Error::InvalidEmail(mailbox::Error::MissingName))
    ));
    assert!(matches!(handler.plan(invite_player("invited", "")), Step::Refuse(e) if e == missing_parts));
    assert!(matches!(handler.plan(invite_player("invited", WHITE_SPACE)), Step::Refuse(e) if e == missing_parts));
    assert!(matches!(
        handler.plan(invite_player("invited", "invited@")),
        Step::Refuse(Error::InvalidEmail(mailbox::Error::Address(_)))
    ));
}

#[test]
fn invitations_are_normalized() {
    match regular().plan(invite_player(
        &format!("{WHITE_SPACE}invited{WHITE_SPACE}"),
        &format!("{WHITE_SPACE}iNviTeD@eMAil.cOm{WHITE_SPACE}"),
    )) {
        Step::Call(StoreCall::Invite { inviter, mailbox }) => {
            assert_eq!(inviter, 1);
            assert_eq!(mailbox.name(), "invited");
            assert_eq!(mailbox.email(), "invited@email.com");
        }
        _ => panic!(),
    }
}

#[test]
fn calls_of_a_registered_player() {
    let handler = regular();
    assert!(matches!(handler.plan(Request::Version), Step::Call(StoreCall::DataVersion)));
    assert!(matches!(handler.plan(Request::Player(Player::List)), Step::Call(StoreCall::ListPlayers)));
    assert!(matches!(handler.plan(Request::Invite(Invite::Cancel(27))), Step::Call(StoreCall::CancelInvite { inviter: 1, id: 27 })));
    assert!(matches!(handler.plan(Request::Game(Game::History(5))), Step::Call(StoreCall::GameHistory(5))));
    match handler.plan(Request::Game(Game::Register {
        player: 1,
        opponent: 3,
        score: 11,
        opponent_score: 4,
        challenge: true,
        millis: Millis(7),
    })) {
        Step::Call(StoreCall::RegisterGame { player_one, player_two, score_one, score_two, challenge, millis }) => {
            assert_eq!((player_one, player_two, score_one, score_two, challenge, millis), (1, 3, 11, 4, true, Millis(7)));
        }
        _ => panic!(),
    }
    match handler.plan(Request::Player(Player::Rename(String::from("new")))) {
        Step::Call(StoreCall::RenamePlayer { id, name }) => {
            assert_eq!(id, 1);
            assert_eq!(name, "new");
        }
        _ => panic!(),
    }
}

#[test]
fn calls_of_an_invited_user() {
    let handler = pending();
    assert!(matches!(handler.plan(Request::Version), Step::Call(StoreCall::DataVersion)));
    match handler.plan(Request::Invite(Invite::Accept)) {
        Step::Call(StoreCall::AcceptInvite { id, email }) => {
            assert_eq!(id, 2);
            assert_eq!(email, "invited@email.com");
        }
        _ => panic!(),
    }
    assert!(matches!(handler.plan(Request::Invite(Invite::Reject)), Step::Call(StoreCall::RejectInvite { id: 2, .. })));
}

fn player(id: i64, name: &str, email: &str) -> types::Player {
    types::Player {
        id,
        name: String::from(name),
        email: String::from(email),
        inviter: Some(1),
        created_ms: Millis(0),
    }
}

fn invite(id: i64) -> types::Invite {
    types::Invite {
        id,
        inviter: 1,
        name: String::from("invited"),
        email: String::from("invited@email.com"),
        created_ms: Millis(0),
    }
}

#[test]
fn rename() {
    let mut handler = regular();
    let call = StoreCall::RenamePlayer { id: 1, name: String::from("new") };
    let outcome = handler
        .complete(call, Ok(StoreReply::Renamed(player(1, "new", "tester@email.com"))))
        .unwrap();
    assert_eq!(outcome.response, Response::Done);
    assert_eq!(
        outcome.push,
        Some(Push::Player(push::Player::Renamed(push::Renamed {
            player: 1,
            old: String::from("tester"),
            new: String::from("new"),
        })))
    );
    assert!(outcome.mail.is_none());
    assert_eq!(handler.user().name(), "new");
    assert_eq!(handler.user().email(), "tester@email.com");
}

#[test]
fn version() {
    let mut handler = regular();
    let outcome = handler.complete(StoreCall::DataVersion, Ok(StoreReply::DataVersion(9))).unwrap();
    assert_eq!(outcome.response, Response::Version { server: VERSION, data: 9 });
    assert_eq!(VERSION, 4);
    assert!(outcome.push.is_none());
}

#[test]
fn invite_ok() {
    let mut handler = regular();
    let mailbox = Mailbox::new(String::from("invited"), String::from("invited@email.com")).unwrap();
    let call = StoreCall::Invite { inviter: 1, mailbox: mailbox.clone() };
    let outcome = handler.complete(call, Ok(StoreReply::Invited(invite(7)))).unwrap();
    assert_eq!(outcome.response, Response::Done);
    assert_eq!(outcome.push, Some(Push::Player(push::Player::Invited(invite(7)))));
    assert_eq!(outcome.mail, Some(Payload::Invite(mailbox)));
}

#[test]
fn cancel() {
    let mut handler = regular();
    let outcome = handler
        .complete(StoreCall::CancelInvite { inviter: 1, id: 7 }, Ok(StoreReply::Cancelled(invite(7))))
        .unwrap();
    assert_eq!(outcome.push, Some(Push::Player(push::Player::Uninvited(invite(7)))));
    assert!(outcome.mail.is_none());
}

#[test]
fn cancel_not_found() {
    let mut handler = regular();
    let outcome = handler.complete(
        StoreCall::CancelInvite { inviter: 1, id: 27 },
        Err(store::Error::NotFound),
    );
    assert_eq!(outcome.err(), Some(Error::Store(store::Error::NotFound)));
}

#[test]
fn accept() {
    let mut handler = pending();
    let inviter = types::User {
        id: 1,
        name: String::from("tester"),
        email: String::from("tester@email.com"),
    };
    let joined = player(2, "invited", "invited@email.com");
    let outcome = handler
        .complete(
            StoreCall::AcceptInvite { id: 2, email: String::from("invited@email.com") },
            Ok(StoreReply::Accepted(joined.clone(), inviter)),
        )
        .unwrap();
    assert_eq!(outcome.push, Some(Push::Player(push::Player::Joined(joined))));
    assert_eq!(
        outcome.mail,
        Some(Payload::InviteOutcome {
            inviter: mailbox::Proto {
                name: String::from("tester"),
                email: String::from("tester@email.com"),
            },
            invitee: mailbox::Proto {
                name: String::from("invited"),
                email: String::from("invited@email.com"),
            },
            accepted: true,
        })
    );
}

#[test]
fn reject() {
    let mut handler = pending();
    let inviter = types::User {
        id: 1,
        name: String::from("tester"),
        email: String::from("tester@email.com"),
    };
    let outcome = handler
        .complete(
            StoreCall::RejectInvite { id: 2, email: String::from("invited@email.com") },
            Ok(StoreReply::Rejected(invite(2), inviter)),
        )
        .unwrap();
    assert_eq!(outcome.push, Some(Push::Player(push::Player::Uninvited(invite(2)))));
    assert!(matches!(outcome.mail, Some(Payload::InviteOutcome { accepted: false, .. })));
}

#[test]
fn listings_have_no_push() {
    let mut handler = regular();
    let outcome = handler
        .complete(
            StoreCall::ListPlayers,
            Ok(StoreReply::Players(vec![player(1, "tester", "tester@email.com")])),
        )
        .unwrap();
    assert_eq!(
        outcome.response,
        Response::Players(vec![types::PlayerTuple(
            1,
            String::from("tester"),
            String::from("tester@email.com"),
            Some(1),
            Millis(0)
        )])
    );
    assert!(outcome.push.is_none() && outcome.mail.is_none());
    let outcome = handler.complete(StoreCall::ListInvites, Ok(StoreReply::Invites(Vec::new()))).unwrap();
    assert_eq!(outcome.response, Response::Invites(Vec::new()));
}

#[test]
fn auth_prefers_players() {
    let auth = Auth::new();
    let user = types::User { id: 1, name: String::from("a"), email: String::from("a@b.c") };
    assert!(matches!(
        auth.auth(Ok(Some(user.clone())), Ok(Some(user.clone()))),
        Ok(Some(UserAccess::Regular(_)))
    ));
    match auth.auth(Ok(None), Ok(Some(user.clone()))) {
        Ok(Some(UserAccess::Pending(u))) => assert_eq!(u.id(), 1),
        _ => panic!(),
    }
    assert!(matches!(auth.auth(Ok(None), Err(store::Error::NotFound)), Ok(None)));
    assert!(matches!(auth.auth(Ok(None), Ok(None)), Ok(None)));
    assert!(matches!(
        auth.auth(Err(store::Error::Query(String::from("x"))), Ok(Some(user))),
        Err(store::Error::Query(_))
    ));
}

#[test]
fn error_answers() {
    let e = Error::Store(store::Error::Query(String::from("secret"))).into_answer();
    assert_eq!((e.code, e.message.as_str()), (500, "Internal server error"));
    let e = Error::Store(store::Error::BlankValue("name")).into_answer();
    assert_eq!((e.code, e.message.as_str()), (400, "Field `name` cannot be blank"));
    let e = Error::Store(store::Error::AlreadyExists).into_answer();
    assert_eq!((e.code, e.message.as_str()), (409, "Entry already exists"));
    let e = Error::Store(store::Error::NotFound).into_answer();
    assert_eq!((e.code, e.message.as_str()), (404, "Not found"));
    let e = Error::InvalidEmail(mailbox::Error::Address(AddressFault::MissingParts)).into_answer();
    assert_eq!((e.code, e.message.as_str()), (400, "Missing domain or user"));
    let e = Error::Forbidden.into_answer();
    assert_eq!((e.code, e.message.as_str()), (403, "Forbidden"));
    assert!(!Error::Store(store::Error::Query(String::new())).is_warn());
    assert!(Error::Forbidden.is_warn());
    assert!(Error::Store(store::Error::NotFound).is_warn());
}

#[test]
fn request_actions() {
    assert_eq!(Request::Player(Player::Rename(String::new())).action(), "Player::Renmae");
    assert_eq!(Request::Invite(Invite::Accept).action(), "Invite::Accept");
    assert_eq!(Request::Version.action(), "Version");
    assert_eq!(
        Push::Player(push::Player::Joined(player(1, "a", "b"))).action(),
        "Player::Joined"
    );
}
