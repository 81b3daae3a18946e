use elo::store::query::{update_query, Bind, Column};
use elo::store::error::{DatabaseFailure, Error};
use elo::store::games::{
    day, replay_from, take_updated, validate_challenge, validate_game, ChallengeRecord, Games,
};
use elo::store::invites::Invites;
use elo::store::players::Players;
use elo::types::{GameRecord, Millis};

const WHITE_SPACE: &str = " \t\n\t ";

#[test]
fn register_same_player() {
    assert_eq!(
        validate_game(1, 1, 11, 0),
        Err(Error::InvalidValue("Players cannot be equal"))
    );
}

#[test]
fn register_good_score() {
    for score in 0..=10 {
        assert_eq!(validate_game(1, 2, 11, score), Ok(()));
        assert_eq!(validate_game(1, 2, score, 11), Ok(()));
    }
    assert_eq!(validate_game(1, 2, 12, 10), Ok(()));
    assert_eq!(validate_game(1, 2, 10, 12), Ok(()));
}

#[test]
fn register_bad_score() {
    for score in 0..15i64 {
        for opponent_score in 0..15i64 {
            let bad = score > 12
                || opponent_score > 12
                || (score == 11 && opponent_score > 10)
                || (opponent_score == 11 && score > 10)
                || (score == 12 && opponent_score != 10)
                || (opponent_score == 12 && score != 10);
            if !bad {
                continue;
            }
            let expected = if score == opponent_score {
                "Scores cannot be equal"
            } else if score > 12 || opponent_score > 12 {
                "Games cannot have a score larger than 12"
            } else if score < 11 && opponent_score < 11 {
                "Games must have a winner with at least 11 points"
            } else if score == 12 || opponent_score == 12 {
                "Tie breaks require a 12x10 score"
            } else {
                "There can only be one winner"
            };
            assert_eq!(
                validate_game(1, 2, score, opponent_score),
                Err(Error::InvalidValue(expected)),
                "{score} x {opponent_score}"
            );
        }
    }
}

#[test]
fn no_winner_is_refused() {
    assert_eq!(
        validate_game(1, 2, 9, 3),
        Err(Error::InvalidValue("Games must have a winner with at least 11 points"))
    );
}

fn challenge(id: i64, one: i64, two: i64, millis: i64) -> ChallengeRecord {
    ChallengeRecord {
        id,
        player_one: one,
        player_two: two,
        challenge: true,
        deleted: false,
        millis: Millis(millis),
    }
}

#[test]
fn register_challenge_daily_limit() {
    let limit = Err(Error::InvalidValue(
        "Players cannot challenge each other more than once a day",
    ));
    let games = vec![challenge(1, 1, 2, 1_704_070_861_000)];

    assert_eq!(validate_challenge(1, 2, Millis(1_704_153_599_999), None, &games), limit);
    assert_eq!(validate_challenge(2, 1, Millis(1_704_070_861_001), None, &games), limit);
    assert_eq!(validate_challenge(1, 2, Millis(1_704_153_600_000), None, &games), Ok(()));
    assert_eq!(validate_challenge(1, 3, Millis(1_704_070_861_000), None, &games), Ok(()));
}

#[test]
fn edit_challenge_daily_limit() {
    let games = vec![challenge(1, 1, 2, 1_704_070_861_000)];
    assert_eq!(
        validate_challenge(1, 2, Millis(1_704_070_861_000), Some(1), &games),
        Ok(())
    );

    let deleted = vec![ChallengeRecord { deleted: true, ..challenge(1, 1, 2, 1_704_070_861_000) }];
    assert_eq!(validate_challenge(1, 2, Millis(1_704_070_861_000), None, &deleted), Ok(()));

    let edit = GameRecord {
        id: 2,
        player_one: 2,
        player_two: 1,
        score_one: 11,
        score_two: 3,
        challenge: true,
        deleted: false,
        millis: Millis(1_704_070_900_000),
    };
    assert_eq!(
        Games::check_update(edit, &games),
        Err(Error::InvalidValue(
            "Players cannot challenge each other more than once a day"
        ))
    );
    assert_eq!(Games::check_update(GameRecord { deleted: true, ..edit }, &games), Ok(()));
    assert_eq!(
        Games::check_update(GameRecord { score_two: 11, ..edit }, &games),
        Err(Error::InvalidValue("Scores cannot be equal"))
    );
}

#[test]
fn check_register_validates_scores_before_the_limit() {
    let games = vec![challenge(1, 1, 2, 0)];
    assert_eq!(
        Games::check_register(1, 2, 11, 11, true, Millis(0), &games),
        Err(Error::InvalidValue("Scores cannot be equal"))
    );
    assert_eq!(
        Games::check_register(1, 2, 11, 4, true, Millis(0), &games),
        Err(Error::InvalidValue(
            "Players cannot challenge each other more than once a day"
        ))
    );
    assert_eq!(Games::check_register(1, 2, 11, 4, false, Millis(0), &games), Ok(()));
}

#[test]
fn days_are_utc_calendar_days() {
    assert_eq!(day(Millis(0)), 0);
    assert_eq!(day(Millis(86_399_999)), 0);
    assert_eq!(day(Millis(86_400_000)), 1);
    assert_eq!(day(Millis(-1)), -1);
    assert_eq!(day(Millis(1_704_070_861_000)), 19723);
}

#[test]
fn normalization() {
    let invite = Invites::new_invite(
        &format!("{WHITE_SPACE}invited{WHITE_SPACE}"),
        &format!("{WHITE_SPACE}iNviTeD@eMAil.cOm{WHITE_SPACE}"),
    )
    .unwrap();
    assert_eq!(invite.name, "invited");
    assert_eq!(invite.email, "invited@email.com");
}

#[test]
fn blank_invites_are_refused() {
    assert_eq!(
        Invites::new_invite(WHITE_SPACE, "a@b.c"),
        Err(Error::BlankValue("name"))
    );
    assert_eq!(Invites::new_invite("name", WHITE_SPACE), Err(Error::BlankValue("email")));
    assert_eq!(Invites::auth_email("  "), Err(Error::BlankValue("email")));
    assert_eq!(Invites::auth_email(" A@B.c ").unwrap(), "a@b.c");
    assert_eq!(Invites::check_taken(true), Err(Error::AlreadyExists));
    assert_eq!(Invites::check_taken(false), Ok(()));
}

#[test]
fn player_inputs() {
    assert_eq!(Players::auth_email(" A@B.c ").unwrap(), "A@B.c");
    assert_eq!(Players::auth_email(""), Err(Error::BlankValue("email")));
    assert_eq!(Players::new_name(&format!("{WHITE_SPACE}new{WHITE_SPACE}")).unwrap(), "new");
    assert_eq!(Players::new_name(WHITE_SPACE), Err(Error::BlankValue("name")));
    assert_eq!(Players::check_taken(true), Err(Error::AlreadyExists));
}

#[test]
fn database_failures() {
    assert_eq!(Error::from_failure(DatabaseFailure::RowNotFound), Error::NotFound);
    assert_eq!(
        Error::from_failure(DatabaseFailure::Database {
            code: Some(String::from("2067")),
            description: String::from("UNIQUE constraint failed"),
        }),
        Error::AlreadyExists
    );
    assert_eq!(
        Error::from_failure(DatabaseFailure::Database {
            code: Some(String::from("787")),
            description: String::from("FOREIGN KEY constraint failed"),
        }),
        Error::NotFound
    );
    assert_eq!(
        Error::from_failure(DatabaseFailure::Database {
            code: Some(String::from("275")),
            description: String::from("CHECK constraint failed"),
        }),
        Error::Query(String::from("CHECK constraint failed"))
    );
    assert_eq!(
        Error::from_failure(DatabaseFailure::Other(String::from("closed"))),
        Error::Query(String::from("closed"))
    );
}

#[test]
fn store_error_messages() {
    assert_eq!(Error::BlankValue("name").message(), "Field `name` cannot be blank");
    assert_eq!(Error::AlreadyExists.message(), "Entry already exists");
    assert_eq!(Error::InvalidValue("Scores cannot be equal").message(), "Scores cannot be equal");
    assert_eq!(Error::NotFound.message(), "Not found");
    assert_eq!(
        Error::Query(String::from("PoolClosed")).message(),
        "Failed to perform query: PoolClosed"
    );
}

#[test]
fn update_statement_for_two_games() {
    assert!(update_query(&[]).is_none());
    let q = update_query(&[7, 9]).unwrap();
    assert_eq!(
        q.text,
        "UPDATE games SET rating_one = CASE WHEN id = ? THEN ? WHEN id = ? THEN ? ELSE rating_one END, \
         rating_two = CASE WHEN id = ? THEN ? WHEN id = ? THEN ? ELSE rating_two END, \
         rating_delta = CASE WHEN id = ? THEN ? WHEN id = ? THEN ? ELSE rating_delta END \
         WHERE id IN (?,?) RETURNING id, player_one, player_two, score_one, score_two, rating_one, \
         rating_two, rating_delta, challenge, deleted, millis, created_ms"
    );
    assert_eq!(
        q.binds,
        vec![
            Bind::Id(7),
            Bind::Rating(Column::RatingOne, 0),
            Bind::Id(9),
            Bind::Rating(Column::RatingOne, 1),
            Bind::Id(7),
            Bind::Rating(Column::RatingTwo, 0),
            Bind::Id(9),
            Bind::Rating(Column::RatingTwo, 1),
            Bind::Id(7),
            Bind::Rating(Column::RatingDelta, 0),
            Bind::Id(9),
            Bind::Rating(Column::RatingDelta, 1),
            Bind::Id(7),
            Bind::Id(9),
        ]
    );
}

#[test]
fn update_statement_for_one_game() {
    let q = update_query(&[3]).unwrap();
    assert!(q.text.contains("WHERE id IN (?) RETURNING"));
    assert_eq!(q.binds.len(), 7);
}

#[test]
fn only_challenges_meet_the_daily_limit() {
    let games = vec![challenge(1, 1, 2, 1_704_070_861_000)];
    let at = Millis(1_704_070_900_000);
    assert_eq!(
        Games::check_register(2, 1, 11, 4, true, at, &games),
        Err(Error::InvalidValue(
            "Players cannot challenge each other more than once a day"
        ))
    );
    assert_eq!(Games::check_register(2, 1, 11, 4, false, at, &games), Ok(()));
    assert_eq!(
        Games::check_register(2, 1, 11, 11, false, at, &games),
        Err(Error::InvalidValue("Scores cannot be equal"))
    );
}

#[test]
fn the_edited_game_is_taken_out_of_the_replayed_ones() {
    let (game, rest) = take_updated(vec!['a', 'b', 'c', 'd'], &vec![1, 2, 3, 4], 2, 'x');
    assert_eq!(game, 'b');
    assert_eq!(rest, vec!['a', 'd', 'c']);
    let (game, rest) = take_updated(vec!['a', 'b'], &vec![1, 2], 9, 'x');
    assert_eq!(game, 'x');
    assert_eq!(rest, vec!['a', 'b']);
    assert_eq!(replay_from(Millis(30), Millis(10)), Millis(10));
    assert_eq!(replay_from(Millis(-5), Millis(10)), Millis(-5));
}
