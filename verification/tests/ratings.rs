use elo::handler::mock::{invitation_plan, mock_times, InviteStep};
use elo::handler::mock::{game_scores, make_player, retry_without_challenge};
use elo::handler::model::Error;
use elo::rating::Elo;
use elo::ratings::RatingTable;
use elo::replay::replay;
use elo::store;
use elo::types::{GameRecord, Millis};

fn contents<V: Copy>(t: &RatingTable<V>) -> Vec<(i64, V)> {
    (0..t.len()).map(|i| (t.player_at(i), *t.value_at(i))).collect()
}

#[test]
fn searches_find_the_place_of_each_player() {
    let t = RatingTable::from_sorted(vec![(2, 'a'), (5, 'b'), (9, 'c')]).unwrap();
    assert_eq!(t.search(5), Ok(1));
    assert_eq!(t.search(1), Err(0));
    assert_eq!(t.search(6), Err(2));
    assert_eq!(t.search(10), Err(3));
    assert!(RatingTable::from_sorted(vec![(2, 'a'), (2, 'b')]).is_none());
    assert!(RatingTable::from_sorted(vec![(3, 'a'), (2, 'b')]).is_none());
    assert_eq!(RatingTable::<u8>::new().search(1), Err(0));
}

#[test]
fn recorded_pairs_keep_the_order() {
    let mut t = RatingTable::from_sorted(vec![(2, 20), (5, 50)]).unwrap();
    let (a, b) = (t.search(1), t.search(3));
    t.record_pair(1, a, 10, 3, b, 30);
    assert_eq!(contents(&t), vec![(1, 10), (2, 20), (3, 30), (5, 50)]);
    let (a, b) = (t.search(6), t.search(0));
    t.record_pair(6, a, 60, 0, b, 0);
    assert_eq!(contents(&t), vec![(0, 0), (1, 10), (2, 20), (3, 30), (5, 50), (6, 60)]);
    let (a, b) = (t.search(5), t.search(4));
    t.record_pair(5, a, 55, 4, b, 40);
    assert_eq!(contents(&t), vec![(0, 0), (1, 10), (2, 20), (3, 30), (4, 40), (5, 55), (6, 60)]);
}

fn game(id: i64, one: i64, two: i64, score_one: i64, score_two: i64, millis: i64) -> GameRecord {
    GameRecord {
        id,
        player_one: one,
        player_two: two,
        score_one,
        score_two,
        challenge: false,
        deleted: false,
        millis: Millis(millis),
    }
}

#[test]
fn replays_carry_ratings_forward() {
    let games = vec![game(1, 1, 2, 11, 3, 10), game(2, 2, 3, 11, 5, 20), game(3, 1, 3, 2, 11, 30)];
    let mut table = RatingTable::new();
    let rated = replay(
        &games,
        &mut table,
        1000i64,
        0i64,
        |_last: Millis, _now: Millis, r: i64| r,
        |_one: i64, _two: i64, won: bool, challenge: bool| if won { 10 } else { -10 } * if challenge { 3 } else { 1 },
        |a: i64, b: i64| a + b,
        |a: i64, b: i64| a - b,
    );
    let summary: Vec<_> = rated
        .iter()
        .map(|r| (r.id, r.rating_one, r.rating_two, r.rating_delta, r.after_one, r.after_two))
        .collect();
    assert_eq!(
        summary,
        vec![
            (1, 1000, 1000, 10, 1010, 990),
            (2, 990, 1000, 10, 1000, 990),
            (3, 1010, 990, -10, 1000, 1000),
        ]
    );
    assert_eq!(
        contents(&table),
        vec![(1, (1000, Millis(30))), (2, (1000, Millis(20))), (3, (1000, Millis(30)))]
    );
}

#[test]
fn deleted_games_change_nothing_but_time_still_passes() {
    let mut deleted = game(1, 1, 2, 11, 3, 100);
    deleted.deleted = true;
    let mut table = RatingTable::from_sorted(vec![(1, (1000.0f64, Millis(0)))]).unwrap();
    let rated = replay(
        &vec![deleted],
        &mut table,
        1000.0,
        0.0,
        |_last: Millis, _now: Millis, r: f64| r - 1.0,
        |_: f64, _: f64, _: bool, _: bool| 16.0,
        |a: f64, b: f64| a + b,
        |a: f64, b: f64| a - b,
    );
    assert_eq!(rated[0].rating_delta, 0.0);
    assert_eq!(rated[0].rating_one, 999.0);
    assert_eq!(rated[0].rating_two, 1000.0);
    assert_eq!(contents(&table), vec![(1, (999.0, Millis(100))), (2, (1000.0, Millis(100)))]);
}

#[test]
fn elapsed_seconds() {
    assert_eq!(Elo::elapsed_seconds(Millis(0), Millis(0)), Some(0));
    assert_eq!(Elo::elapsed_seconds(Millis(0), Millis(1000 * 60 * 60 * 24)), Some(86400));
    assert_eq!(Elo::elapsed_seconds(Millis(999), Millis(1000)), Some(1));
    assert_eq!(Elo::elapsed_seconds(Millis(1000), Millis(0)), Some(-1));
    assert_eq!(Elo::elapsed_seconds(Millis(-1500), Millis(0)), Some(1));
    assert_eq!(Elo::elapsed_seconds(Millis(0), Millis(i64::MAX)), None);
}

#[test]
fn mock_players_and_games() {
    assert_eq!(
        make_player("Some Name"),
        (String::from("Some Name"), String::from("some.name@email.com"))
    );
    assert_eq!(game_scores(true, 3, false), (12, 10));
    assert_eq!(game_scores(false, 3, true), (3, 11));
    assert_eq!(game_scores(false, 9, false), (11, 9));
    let limit = Error::Store(store::Error::InvalidValue(
        "Players cannot challenge each other more than once a day",
    ));
    assert!(retry_without_challenge(&limit, true));
    assert!(!retry_without_challenge(&limit, false));
    assert!(!retry_without_challenge(&Error::Forbidden, true));
}

#[test]
fn invitation_tree_of_the_mock_ladder() {
    let amounts = [4, 3, 3, 2, 2, 0, 0, 0, 2, 2, 0, 1, 1, 0, 0, 0, -1, 0, 0, -1, 0];
    let (steps, complete) = invitation_plan(&amounts);
    assert!(complete);
    let invites: Vec<(usize, usize)> = steps
        .iter()
        .filter_map(|s| match s {
            InviteStep::Invite { inviter, invitee } => Some((*inviter, *invitee)),
            InviteStep::Visit(_) => None,
        })
        .collect();
    assert_eq!(
        invites,
        vec![
            (0, 1), (0, 2), (0, 3), (0, 4),
            (1, 5), (1, 6), (1, 7),
            (2, 8), (2, 9), (2, 10),
            (3, 11), (3, 12),
            (4, 13), (4, 14),
            (8, 15), (8, 16),
            (9, 17), (9, 18),
            (11, 19),
            (12, 20),
        ]
    );
    let visits: Vec<usize> = steps
        .iter()
        .filter_map(|s| match s {
            InviteStep::Visit(u) => Some(*u),
            InviteStep::Invite { .. } => None,
        })
        .collect();
    assert_eq!(visits, vec![0, 1, 2, 3, 4, 5, 6, 7, 8, 9, 10, 11, 12, 13, 14, 15, 17, 18, 20]);
    assert_eq!(steps[0], InviteStep::Visit(0));
    assert_eq!(steps[1], InviteStep::Invite { inviter: 0, invitee: 1 });
}

#[test]
fn invitation_tree_runs_out_of_users() {
    let (steps, complete) = invitation_plan(&[3, 0]);
    assert!(!complete);
    assert_eq!(steps, vec![InviteStep::Visit(0), InviteStep::Invite { inviter: 0, invitee: 1 }]);
    let (steps, complete) = invitation_plan(&[]);
    assert!(complete && steps.is_empty());
    let (steps, complete) = invitation_plan(&[-1, 5]);
    assert!(complete && steps.is_empty());
}

#[test]
fn mock_times_go_back_and_come_out_in_order() {
    assert_eq!(mock_times(1000, &[10, 20, 30]), vec![940, 970, 990]);
    assert!(mock_times(5, &[]).is_empty());
}

#[test]
fn replaying_in_two_parts_gives_the_same_ratings() {
    let games = vec![
        game(1, 1, 2, 11, 3, 10),
        game(2, 2, 3, 11, 5, 86_400_000),
        game(3, 1, 3, 2, 11, 3 * 86_400_000),
    ];
    let decay = |last: Millis, now: Millis, r: i64| {
        let days = (now.0 - last.0) / 86_400_000;
        if r > 1000 { (r - days).max(1000) } else { (r + days).min(1000) }
    };
    let update = |one: i64, two: i64, won: bool, _: bool| {
        let d = if won { 16 } else { -16 };
        d + (two - one) / 100
    };

    let mut whole = RatingTable::new();
    let all = replay(&games, &mut whole, 1000i64, 0i64, decay, update, |a: i64, b: i64| a + b, |a: i64, b: i64| a - b);

    let mut split = RatingTable::new();
    let first = replay(&games[..1].to_vec(), &mut split, 1000i64, 0i64, decay, update, |a: i64, b: i64| a + b, |a: i64, b: i64| a - b);
    let rest = replay(&games[1..].to_vec(), &mut split, 1000i64, 0i64, decay, update, |a: i64, b: i64| a + b, |a: i64, b: i64| a - b);

    let joined: Vec<_> = first.iter().chain(rest.iter()).copied().collect();
    assert_eq!(joined, all);
    assert_eq!(contents(&split), contents(&whole));
}
