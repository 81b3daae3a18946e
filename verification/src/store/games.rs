//! The rules on games: what a valid score is, and how often two players may
//! challenge each other.
use vstd::prelude::*;

use super::error::Error;
use crate::types::{GameRecord, Id, Millis};

verus! {

/// The rule that the given players and scores break, by its message, or
/// `None` where they describe a valid game.
pub open spec fn game_violation(player_one: Id, player_two: Id, score_one: int, score_two: int) -> Option<
    &'static str,
> {
    if player_one == player_two {
        Some("Players cannot be equal")
    } else if score_one == score_two {
        Some("Scores cannot be equal")
    } else if score_one > 12 || score_two > 12 {
        Some("Games cannot have a score larger than 12")
    } else if score_one < 11 && score_two < 11 {
        Some("Games must have a winner with at least 11 points")
    } else if (score_one == 12 && score_two != 10) || (score_two == 12 && score_one != 10) {
        Some("Tie breaks require a 12x10 score")
    } else if (score_one == 11 && score_two >= 11) || (score_two == 11 && score_one >= 11) {
        Some("There can only be one winner")
    } else {
        None
    }
}

/// A game is valid: two different players, and the scores of a finished
/// game to 11 points or of a 12x10 tie break.
pub open spec fn valid_game(player_one: Id, player_two: Id, score_one: int, score_two: int) -> bool {
    game_violation(player_one, player_two, score_one, score_two) is None
}

/// Checks the players and scores of a game: `Ok` where they are valid, else
/// `InvalidValue` with the message of the first rule they break.
pub fn validate_game(player_one: Id, player_two: Id, score_one: i64, score_two: i64) -> (r: Result<
    (),
    Error,
>)
    ensures
        r == match game_violation(player_one, player_two, score_one as int, score_two as int) {
            None => Ok(()),
            Some(message) => Err(Error::InvalidValue(message)),
        },
{
    if player_one == player_two {
        Err(Error::InvalidValue("Players cannot be equal"))
    } else if score_one == score_two {
        Err(Error::InvalidValue("Scores cannot be equal"))
    } else if score_one > 12 || score_two > 12 {
        Err(Error::InvalidValue("Games cannot have a score larger than 12"))
    } else if score_one < 11 && score_two < 11 {
        Err(Error::InvalidValue("Games must have a winner with at least 11 points"))
    } else if (score_one == 12 && score_two != 10) || (score_two == 12 && score_one != 10) {
        Err(Error::InvalidValue("Tie breaks require a 12x10 score"))
    } else if (score_one == 11 && score_two >= 11) || (score_two == 11 && score_one >= 11) {
        Err(Error::InvalidValue("There can only be one winner"))
    } else {
        Ok(())
    }
}

/// The valid games are exactly those with two different players where one
/// side scored 11 against at most 10, or 12 against 10.
pub proof fn lemma_valid_game_scores(player_one: Id, player_two: Id, score_one: int, score_two: int)
    requires
        score_one >= 0,
        score_two >= 0,
    ensures
        valid_game(player_one, player_two, score_one, score_two) <==> {
            &&& player_one != player_two
            &&& {
                ||| score_one == 11 && score_two <= 10
                ||| score_two == 11 && score_one <= 10
                ||| score_one == 12 && score_two == 10
                ||| score_two == 12 && score_one == 10
            }
        },
{
}

/// The number of milliseconds in a day.
pub const MILLIS_PER_DAY: i64 = 86_400_000;

/// The UTC calendar day, counted from the Unix epoch, that a point in time
/// falls on.
pub open spec fn day_of(millis: Millis) -> int {
    millis.0 as int / MILLIS_PER_DAY as int
}

/// The UTC calendar day, counted from the Unix epoch, that `millis` falls
/// on.
pub fn day(millis: Millis) -> (r: i64)
    ensures
        r == day_of(millis),
{
    let m = millis.0;
    let q = m / MILLIS_PER_DAY;
    let rem = m % MILLIS_PER_DAY;
    if rem < 0 {
        q - 1
    } else {
        q
    }
}

/// A game, as far as the challenge limit looks at it.
#[derive(Debug, Copy, Clone, PartialEq, Eq)]
pub struct ChallengeRecord {
    pub id: Id,
    pub player_one: Id,
    pub player_two: Id,
    pub challenge: bool,
    pub deleted: bool,
    pub millis: Millis,
}

/// The message of the challenge limit.
pub open spec fn challenge_limit_message() -> &'static str {
    "Players cannot challenge each other more than once a day"
}

/// `g` is a standing challenge between the two players on the day of
/// `millis`, other than the game `ignore`.
pub open spec fn conflicts(
    g: ChallengeRecord,
    player_one: Id,
    player_two: Id,
    millis: Millis,
    ignore: Option<Id>,
) -> bool {
    &&& g.challenge
    &&& !g.deleted
    &&& (g.player_one == player_one || g.player_one == player_two)
    &&& (g.player_two == player_one || g.player_two == player_two)
    &&& day_of(g.millis) == day_of(millis)
    &&& ignore != Some(g.id)
}

/// Checks the limit of one challenge per pair of players per day: `Err`
/// with `InvalidValue` exactly when some game of `games` is a standing
/// challenge between the two on the same day, other than the game `ignore`
/// that is being edited.
pub fn validate_challenge(
    player_one: Id,
    player_two: Id,
    millis: Millis,
    ignore: Option<Id>,
    games: &Vec<ChallengeRecord>,
) -> (r: Result<(), Error>)
    ensures
        r is Err <==> exists|i: int|
            0 <= i < games@.len() && conflicts(
                #[trigger] games@[i],
                player_one,
                player_two,
                millis,
                ignore,
            ),
        r matches Err(e) ==> e == Error::InvalidValue(challenge_limit_message()),
        (forall|i: int|
            0 <= i < games@.len() ==> !(#[trigger] games@[i]).challenge || games@[i].deleted) ==> r
            == Ok::<(), Error>(()),
{
    let today = day(millis);
    let n = games.len();
    let mut i: usize = 0;
    while i < n
        invariant
            n == games@.len(),
            i <= n,
            today == day_of(millis),
            forall|j: int|
                0 <= j < i ==> !conflicts(#[trigger] games@[j], player_one, player_two, millis, ignore),
        decreases n - i,
    {
        let g = &games[i];
        let ignored = match ignore {
            Some(id) => id == g.id,
            None => false,
        };
        if g.challenge && !g.deleted && (g.player_one == player_one || g.player_one == player_two)
            && (g.player_two == player_one || g.player_two == player_two) && day(g.millis) == today
            && !ignored {
            assert(conflicts(games@[i as int], player_one, player_two, millis, ignore));
            return Err(Error::InvalidValue("Players cannot challenge each other more than once a day"));
        }
        i = i + 1;
    }
    Ok(())
}

/// Some game among `games` is a challenge that a new challenge between
/// the two players at `millis` would repeat, the game `ignore` aside.
pub open spec fn challenged(
    games: Seq<ChallengeRecord>,
    player_one: Id,
    player_two: Id,
    millis: Millis,
    ignore: Option<Id>,
) -> bool {
    exists|i: int| 0 <= i < games.len() && conflicts(#[trigger] games[i], player_one, player_two, millis, ignore)
}

/// What the checks before a game is registered answer: the first rule of a
/// valid game that it breaks; else, for a challenge, the limit of one
/// challenge a day where `games` holds one between the two on that day.
pub open spec fn register_check(
    player_one: Id,
    player_two: Id,
    score_one: int,
    score_two: int,
    challenge: bool,
    millis: Millis,
    games: Seq<ChallengeRecord>,
) -> Result<(), Error> {
    match game_violation(player_one, player_two, score_one, score_two) {
        Some(m) => Err(Error::InvalidValue(m)),
        None => if challenge && challenged(games, player_one, player_two, millis, None) {
            Err(Error::InvalidValue(challenge_limit_message()))
        } else {
            Ok(())
        },
    }
}

/// What the checks before a game is edited answer: as for a new game, where
/// only a live challenge counts against the limit, and the game itself does
/// not.
pub open spec fn update_check(edit: GameRecord, games: Seq<ChallengeRecord>) -> Result<(), Error> {
    match game_violation(edit.player_one, edit.player_two, edit.score_one as int, edit.score_two as int) {
        Some(m) => Err(Error::InvalidValue(m)),
        None => if edit.challenge && !edit.deleted && challenged(
            games,
            edit.player_one,
            edit.player_two,
            edit.millis,
            Some(edit.id),
        ) {
            Err(Error::InvalidValue(challenge_limit_message()))
        } else {
            Ok(())
        },
    }
}

/// Two players may challenge each other once a day: where a live challenge
/// between them, in either order, stands on the same UTC day, a new valid
/// challenge between them is refused, and so is an edit of another game
/// into such a challenge.
pub proof fn lemma_one_challenge_a_day(
    games: Seq<ChallengeRecord>,
    i: int,
    player_one: Id,
    player_two: Id,
    score_one: int,
    score_two: int,
    millis: Millis,
    edit: GameRecord,
)
    requires
        0 <= i < games.len(),
        games[i].challenge,
        !games[i].deleted,
        (games[i].player_one == player_one && games[i].player_two == player_two) || (
        games[i].player_one == player_two && games[i].player_two == player_one),
        day_of(games[i].millis) == day_of(millis),
    ensures
        valid_game(player_one, player_two, score_one, score_two) ==> register_check(
            player_one,
            player_two,
            score_one,
            score_two,
            true,
            millis,
            games,
        ) == Err::<(), Error>(Error::InvalidValue(challenge_limit_message())),
        ({
            &&& edit.player_one == player_one
            &&& edit.player_two == player_two
            &&& edit.millis == millis
            &&& edit.challenge
            &&& !edit.deleted
            &&& edit.id != games[i].id
            &&& valid_game(edit.player_one, edit.player_two, edit.score_one as int, edit.score_two as int)
        }) ==> update_check(edit, games) == Err::<(), Error>(
            Error::InvalidValue(challenge_limit_message()),
        ),
{
    assert(conflicts(games[i], player_one, player_two, millis, None));
    if edit.id != games[i].id {
        assert(conflicts(games[i], player_one, player_two, millis, Some(edit.id)));
    }
}

/// Anything but a live challenge is never held back by the limit: a game
/// that is no challenge is checked for its players and scores alone.
pub proof fn lemma_limit_only_for_challenges(
    player_one: Id,
    player_two: Id,
    score_one: int,
    score_two: int,
    millis: Millis,
    games: Seq<ChallengeRecord>,
    edit: GameRecord,
)
    ensures
        register_check(player_one, player_two, score_one, score_two, false, millis, games) == (
        match game_violation(player_one, player_two, score_one, score_two) {
            Some(m) => Err(Error::InvalidValue(m)),
            None => Ok(()),
        }),
        !edit.challenge || edit.deleted ==> update_check(edit, games) == (match game_violation(
            edit.player_one,
            edit.player_two,
            edit.score_one as int,
            edit.score_two as int,
        ) {
            Some(m) => Err(Error::InvalidValue(m)),
            None => Ok::<(), Error>(()),
        }),
{
}

/// Only a live challenge between the same two players on the same UTC day
/// holds a new challenge back: `games` blocks a challenge between `player_one`
/// and `player_two` at `millis` exactly when one of its entries is a
/// challenge, not deleted, between those two players in either order, on
/// the same day counted in whole days of 86,400,000 ms from the epoch, and
/// not the game `ignore`. In particular, where no entry is a live challenge,
/// nothing is blocked, and a valid challenge is registered and edited freely.
pub proof fn lemma_only_live_challenges_count(
    games: Seq<ChallengeRecord>,
    player_one: Id,
    player_two: Id,
    score_one: int,
    score_two: int,
    millis: Millis,
    ignore: Option<Id>,
    edit: GameRecord,
)
    ensures
        challenged(games, player_one, player_two, millis, ignore) <==> exists|i: int|
            0 <= i < games.len() && {
                let g = #[trigger] games[i];
                &&& g.challenge
                &&& !g.deleted
                &&& (g.player_one == player_one || g.player_one == player_two)
                &&& (g.player_two == player_one || g.player_two == player_two)
                &&& g.millis.0 as int / 86_400_000 == millis.0 as int / 86_400_000
                &&& ignore != Some(g.id)
            },
        (forall|i: int| 0 <= i < games.len() ==> !(#[trigger] games[i]).challenge || games[i].deleted)
            ==> {
            &&& !challenged(games, player_one, player_two, millis, ignore)
            &&& valid_game(player_one, player_two, score_one, score_two) ==> register_check(
                player_one,
                player_two,
                score_one,
                score_two,
                true,
                millis,
                games,
            ) == Ok::<(), Error>(())
            &&& valid_game(edit.player_one, edit.player_two, edit.score_one as int, edit.score_two as int)
                ==> update_check(edit, games) == Ok::<(), Error>(())
        },
{
    if forall|i: int| 0 <= i < games.len() ==> !(#[trigger] games[i]).challenge || games[i].deleted {
        assert forall|i: int| 0 <= i < games.len() implies !conflicts(
            #[trigger] games[i],
            edit.player_one,
            edit.player_two,
            edit.millis,
            Some(edit.id),
        ) by {}
        assert forall|i: int| 0 <= i < games.len() implies !conflicts(
            #[trigger] games[i],
            player_one,
            player_two,
            millis,
            None,
        ) by {}
    }
}

/// The games of the ladder.
pub struct Games;

impl Games {
    /// The checks before a game is registered: valid players and scores,
    /// and for a challenge, no other challenge between the two on that day
    /// among `games`.
    pub fn check_register(
        player_one: Id,
        player_two: Id,
        score_one: u8,
        score_two: u8,
        challenge: bool,
        millis: Millis,
        games: &Vec<ChallengeRecord>,
    ) -> (r: Result<(), Error>)
        ensures
            r == register_check(
                player_one,
                player_two,
                score_one as int,
                score_two as int,
                challenge,
                millis,
                games@,
            ),
            game_violation(player_one, player_two, score_one as int, score_two as int) is None && (
            forall|i: int|
                0 <= i < games@.len() ==> !(#[trigger] games@[i]).challenge || games@[i].deleted)
                ==> r == Ok::<(), Error>(()),
    {
        match validate_game(player_one, player_two, score_one as i64, score_two as i64) {
            Err(e) => return Err(e),
            Ok(()) => {},
        }
        if challenge {
            let r = validate_challenge(player_one, player_two, millis, None, games);
            if r.is_ok() {
                assert(!challenged(games@, player_one, player_two, millis, None));
                Ok(())
            } else {
                assert(challenged(games@, player_one, player_two, millis, None));
                Err(Error::InvalidValue("Players cannot challenge each other more than once a day"))
            }
        } else {
            Ok(())
        }
    }

    /// The checks before a game is edited: valid players and scores, and
    /// for a standing challenge, no other challenge between the two on that
    /// day among `games`, the edited game itself aside.
    pub fn check_update(edit: GameRecord, games: &Vec<ChallengeRecord>) -> (r: Result<(), Error>)
        ensures
            r == update_check(edit, games@),
    {
        match validate_game(edit.player_one, edit.player_two, edit.score_one, edit.score_two) {
            Err(e) => return Err(e),
            Ok(()) => {},
        }
        if edit.challenge && !edit.deleted {
            let r = validate_challenge(
                edit.player_one,
                edit.player_two,
                edit.millis,
                Some(edit.id),
                games,
            );
            if r.is_ok() {
                assert(!challenged(games@, edit.player_one, edit.player_two, edit.millis, Some(edit.id)));
                Ok(())
            } else {
                assert(challenged(games@, edit.player_one, edit.player_two, edit.millis, Some(edit.id)));
                Err(Error::InvalidValue("Players cannot challenge each other more than once a day"))
            }
        } else {
            Ok(())
        }
    }
}

/// The time from which the games are replayed once a game moved from `old`
/// to `new`: the earlier of the two.
pub fn replay_from(old: Millis, new: Millis) -> (r: Millis)
    ensures
        r == if old.0 <= new.0 {
            old
        } else {
            new
        },
{
    if old.0 <= new.0 {
        old
    } else {
        new
    }
}

/// The first place of `id` among `ids`.
pub open spec fn first_at(ids: Seq<Id>, id: Id, i: int) -> bool {
    &&& 0 <= i < ids.len()
    &&& ids[i] == id
    &&& forall|j: int| 0 <= j < i ==> ids[j] != id
}

/// The registered or edited game and the other games whose ratings the
/// replay changed, from the games the replay changed, whose ids are `ids`:
/// where the game `id` is among them, the first such entry, taken out as
/// `Vec::swap_remove` takes it, the last entry moving into its place; else
/// `game` as it was stored, and the changed games as they are.
pub fn take_updated<G>(updates: Vec<G>, ids: &Vec<Id>, id: Id, game: G) -> (r: (G, Vec<G>))
    requires
        ids@.len() == updates@.len(),
    ensures
        (forall|j: int| 0 <= j < ids@.len() ==> ids@[j] != id) ==> r.0 == game && r.1@ == updates@,
        forall|i: int|
            first_at(ids@, id, i) ==> r.0 == updates@[i] && r.1@ == updates@.update(
                i,
                updates@.last(),
            ).drop_last(),
{
    let n = ids.len();
    let mut i: usize = 0;
    while i < n
        invariant
            n == ids@.len(),
            n == updates@.len(),
            i <= n,
            forall|j: int| 0 <= j < i ==> ids@[j] != id,
        decreases n - i,
    {
        if ids[i] == id {
            let mut updates = updates;
            let taken = updates.swap_remove(i);
            proof {
                assert(first_at(ids@, id, i as int));
                assert forall|k: int| first_at(ids@, id, k) implies k == i by {
                    if k < i {
                        assert(ids@[k] != id);
                    } else if k > i {
                        assert(ids@[i as int] != id);
                    }
                }
            }
            return (taken, updates);
        }
        i = i + 1;
    }
    (game, updates)
}

} // verus!
