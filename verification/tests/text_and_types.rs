use elo::text::{equals, join, starts_with, to_lowercase, trim};
use elo::types::{
    histories_to_tuples, invites_to_tuples, players_to_tuples, History, HistoryTuple, Invite,
    InviteTuple, Millis, Player, PlayerTuple,
};

#[test]
fn trims_unicode_white_space() {
    assert_eq!(trim(" \t\n\t name \u{3000}"), "name");
    assert_eq!(trim("a b"), "a b");
    assert_eq!(trim("   "), "");
    assert_eq!(trim(""), "");
    assert_eq!(trim("\u{85}x\u{2028}"), "x");
}

#[test]
fn text_helpers() {
    assert!(equals("abc", "abc"));
    assert!(!equals("abc", "abd"));
    assert!(!equals("abc", "ab"));
    assert!(starts_with("sqlite://db", "sqlite://"));
    assert!(!starts_with("sqlite:/", "sqlite://"));
    assert_eq!(join("ab", "cd"), "abcd");
    assert_eq!(to_lowercase("iNviTeD@eMAil.cOm"), "invited@email.com");
}

#[test]
fn player_tuples_round_trip() {
    let player = Player {
        id: 3,
        name: String::from("name"),
        email: String::from("email"),
        inviter: Some(1),
        created_ms: Millis(27),
    };
    let tuple = PlayerTuple::from(player.clone());
    assert_eq!(
        tuple,
        PlayerTuple(3, String::from("name"), String::from("email"), Some(1), Millis(27))
    );
    assert_eq!(Player::from(tuple), player);
    assert_eq!(players_to_tuples(vec![player.clone()]), vec![PlayerTuple::from(player)]);
}

#[test]
fn invite_tuples_round_trip() {
    let invite = Invite {
        id: 4,
        inviter: 1,
        name: String::from("name"),
        email: String::from("email"),
        created_ms: Millis(9),
    };
    let tuple = InviteTuple::from(invite.clone());
    assert_eq!(tuple.0, 4);
    assert_eq!(tuple.1, 1);
    assert_eq!(Invite::from(tuple), invite);
    assert_eq!(invites_to_tuples(vec![invite.clone()]).len(), 1);
}

#[test]
fn history_tuples_round_trip() {
    let history = History {
        id: 1,
        game: 2,
        player_one: 3,
        player_two: 4,
        score_one: 11,
        score_two: 7,
        challenge: true,
        deleted: false,
        millis: Millis(5),
        created_ms: Millis(6),
    };
    let tuple = HistoryTuple::from(history);
    assert_eq!(History::from(tuple), history);
    assert_eq!(histories_to_tuples(vec![history, history]), vec![tuple, tuple]);
    assert_eq!(i64::from(Millis::from(27)), 27);
}
