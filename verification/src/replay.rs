//! The replay of games in time order, which recomputes every rating from
//! the ratings the players had before the first replayed game.
use vstd::prelude::*;

use crate::ratings::{
    holds, is_search_result, lemma_shifted, lemma_upsert, ordered, shifted, upsert_at, RatingTable,
};
use crate::types::{GameRecord, Id, Millis};

verus! {

/// The search result for `player` in the ordered table `s`.
pub open spec fn locate<V>(s: Seq<(Id, V)>, player: Id) -> Result<usize, usize> {
    choose|r: Result<usize, usize>| is_search_result(s, player, r)
}

/// The entry of `player` in the table `s`, where it has one.
pub open spec fn entry<V>(s: Seq<(Id, V)>, player: Id) -> Option<V> {
    match locate(s, player) {
        Ok(i) => Some(s[i as int].1),
        Err(_) => None,
    }
}

/// In an ordered table a search has one answer.
pub proof fn lemma_search_unique<V>(
    s: Seq<(Id, V)>,
    player: Id,
    a: Result<usize, usize>,
    b: Result<usize, usize>,
)
    requires
        ordered(s),
        is_search_result(s, player, a),
        is_search_result(s, player, b),
    ensures
        a == b,
{
    match (a, b) {
        (Ok(i), Ok(j)) => {
            if i < j {
                assert(s[i as int].0 < s[j as int].0);
            } else if j < i {
                assert(s[j as int].0 < s[i as int].0);
            }
        },
        (Ok(i), Err(j)) => {
            if (i as int) < (j as int) {
                assert(s[i as int].0 < player);
            } else {
                assert(s[i as int].0 > player);
            }
        },
        (Err(i), Ok(j)) => {
            if (j as int) < (i as int) {
                assert(s[j as int].0 < player);
            } else {
                assert(s[j as int].0 > player);
            }
        },
        (Err(i), Err(j)) => {
            if i < j {
                assert(s[i as int].0 < player);
                assert(s[i as int].0 > player);
            } else if j < i {
                assert(s[j as int].0 < player);
                assert(s[j as int].0 > player);
            }
        },
    }
}

/// A search result is the one that `locate` names.
pub proof fn lemma_locate<V>(s: Seq<(Id, V)>, player: Id, r: Result<usize, usize>)
    requires
        ordered(s),
        is_search_result(s, player, r),
    ensures
        locate(s, player) == r,
{
    let c = locate(s, player);
    assert(is_search_result(s, player, c));
    lemma_search_unique(s, player, c, r);
}

/// The table once the game between `one` and `two` left them the values
/// `v1` and `v2`.
pub open spec fn record<V>(s: Seq<(Id, V)>, one: Id, v1: V, two: Id, v2: V) -> Seq<(Id, V)> {
    upsert_at(
        upsert_at(s, locate(s, one), one, v1),
        shifted(locate(s, one), one, two, locate(s, two)),
        two,
        v2,
    )
}

/// The ratings that the replay of one game gives: those the two players
/// had going into it, the change it makes, and those they have after it.
#[derive(Debug, Copy, Clone, PartialEq)]
pub struct Rated<V> {
    pub id: Id,
    pub rating_one: V,
    pub rating_two: V,
    pub rating_delta: V,
    pub after_one: V,
    pub after_two: V,
}

/// The table of each player's latest rating and the time of its last game,
/// once the first `k` of `games` were replayed with the outcomes `rated`.
pub open spec fn table_after<V>(
    t0: Seq<(Id, (V, Millis))>,
    games: Seq<GameRecord>,
    rated: Seq<Rated<V>>,
    k: nat,
) -> Seq<(Id, (V, Millis))>
    decreases k,
{
    if k == 0 {
        t0
    } else {
        let t = table_after(t0, games, rated, (k - 1) as nat);
        let g = games[k - 1];
        let r = rated[k - 1];
        record(t, g.player_one, (r.after_one, g.millis), g.player_two, (r.after_two, g.millis))
    }
}

/// The rating a player goes into a game with: its latest rating, drifted by
/// `decay` over the time since its last game, or `default` for a player
/// without one.
pub open spec fn going_in<V, D: Fn(Millis, Millis, V) -> V>(
    t: Seq<(Id, (V, Millis))>,
    player: Id,
    at: Millis,
    default: V,
    decay: D,
    rating: V,
) -> bool {
    match entry(t, player) {
        Some((v, last)) => call_ensures(decay, (last, at, v), rating),
        None => rating == default,
    }
}

/// `r` is the replay of game `g` with the table `t` going in: the ratings
/// going in; no change for a deleted game, else the change that `update`
/// gives for the winner and the kind of game; the first player gains the
/// change and the second loses it.
pub open spec fn replayed<V, D, U, P, M>(
    t: Seq<(Id, (V, Millis))>,
    g: GameRecord,
    r: Rated<V>,
    default: V,
    zero: V,
    decay: D,
    update: U,
    plus: P,
    minus: M,
) -> bool where
    D: Fn(Millis, Millis, V) -> V,
    U: Fn(V, V, bool, bool) -> V,
    P: Fn(V, V) -> V,
    M: Fn(V, V) -> V,
 {
    &&& r.id == g.id
    &&& going_in(t, g.player_one, g.millis, default, decay, r.rating_one)
    &&& going_in(t, g.player_two, g.millis, default, decay, r.rating_two)
    &&& if g.deleted {
        r.rating_delta == zero
    } else {
        call_ensures(
            update,
            (r.rating_one, r.rating_two, g.score_one > g.score_two, g.challenge),
            r.rating_delta,
        )
    }
    &&& call_ensures(plus, (r.rating_one, r.rating_delta), r.after_one)
    &&& call_ensures(minus, (r.rating_two, r.rating_delta), r.after_two)
}

/// The replay of the first `k` games depends only on the first `k`
/// outcomes.
pub proof fn lemma_table_after_prefix<V>(
    t0: Seq<(Id, (V, Millis))>,
    games: Seq<GameRecord>,
    rated: Seq<Rated<V>>,
    x: Rated<V>,
    k: nat,
)
    requires
        k <= rated.len(),
    ensures
        table_after(t0, games, rated.push(x), k) == table_after(t0, games, rated, k),
    decreases k,
{
    if k > 0 {
        lemma_table_after_prefix(t0, games, rated, x, (k - 1) as nat);
        assert(rated.push(x)[k - 1] == rated[k - 1]);
    }
}

/// Replays `games` in the given order over the table `table` of each
/// player's rating and the time of its last game, as it stood before the
/// first of them. Each game gets the ratings its players go into it with,
/// its change, and their ratings after it; the table ends with every
/// player's latest rating.
pub fn replay<V, D, U, P, M>(
    games: &Vec<GameRecord>,
    table: &mut RatingTable<(V, Millis)>,
    default: V,
    zero: V,
    decay: D,
    update: U,
    plus: P,
    minus: M,
) -> (rated: Vec<Rated<V>>) where
    V: Copy,
    D: Fn(Millis, Millis, V) -> V,
    U: Fn(V, V, bool, bool) -> V,
    P: Fn(V, V) -> V,
    M: Fn(V, V) -> V,

    requires
        old(table).wf(),
        forall|k: int| 0 <= k < games@.len() ==> #[trigger] games@[k].player_one != games@[k].player_two,
        forall|a: Millis, b: Millis, v: V| decay.requires((a, b, v)),
        forall|a: V, b: V, w: bool, c: bool| update.requires((a, b, w, c)),
        forall|a: V, b: V| plus.requires((a, b)),
        forall|a: V, b: V| minus.requires((a, b)),
    ensures
        rated@.len() == games@.len(),
        final(table).wf(),
        final(table)@ == table_after(old(table)@, games@, rated@, games@.len()),
        replays(old(table)@, games@, rated@, default, zero, decay, update, plus, minus),
        forall|k: int|
            #![trigger games@[k]]
            0 <= k < games@.len() ==> {
                &&& rated@[k].id == games@[k].id
                &&& games@[k].deleted ==> rated@[k].rating_delta == zero
                &&& !games@[k].deleted ==> call_ensures(
                    update,
                    (
                        rated@[k].rating_one,
                        rated@[k].rating_two,
                        games@[k].score_one > games@[k].score_two,
                        games@[k].challenge,
                    ),
                    rated@[k].rating_delta,
                )
                &&& call_ensures(plus, (rated@[k].rating_one, rated@[k].rating_delta), rated@[k].after_one)
                &&& call_ensures(minus, (rated@[k].rating_two, rated@[k].rating_delta), rated@[k].after_two)
            },
        forall|k: int|
            0 <= k < games@.len() ==> replayed(
                table_after(old(table)@, games@, rated@, k as nat),
                #[trigger] games@[k],
                rated@[k],
                default,
                zero,
                decay,
                update,
                plus,
                minus,
            ),
{
    let ghost t0 = table@;
    let mut rated: Vec<Rated<V>> = Vec::new();
    let n = games.len();
    let mut k: usize = 0;
    while k < n
        invariant
            n == games@.len(),
            k <= n,
            rated@.len() == k,
            table.wf(),
            table@ == table_after(t0, games@, rated@, k as nat),
            forall|j: int| 0 <= j < games@.len() ==> #[trigger] games@[j].player_one != games@[j].player_two,
            forall|a: Millis, b: Millis, v: V| decay.requires((a, b, v)),
            forall|a: V, b: V, w: bool, c: bool| update.requires((a, b, w, c)),
            forall|a: V, b: V| plus.requires((a, b)),
            forall|a: V, b: V| minus.requires((a, b)),
            forall|j: int|
                0 <= j < k ==> replayed(
                    table_after(t0, games@, rated@, j as nat),
                    #[trigger] games@[j],
                    rated@[j],
                    default,
                    zero,
                    decay,
                    update,
                    plus,
                    minus,
                ),
        decreases n - k,
    {
        let g = games[k];
        let ghost t = table@;
        let at_one = table.search(g.player_one);
        let at_two = table.search(g.player_two);
        proof {
            lemma_locate(t, g.player_one, at_one);
            lemma_locate(t, g.player_two, at_two);
        }
        let rating_one = match at_one {
            Ok(i) => {
                let e = *table.value_at(i);
                decay(e.1, g.millis, e.0)
            },
            Err(_) => default,
        };
        let rating_two = match at_two {
            Ok(i) => {
                let e = *table.value_at(i);
                decay(e.1, g.millis, e.0)
            },
            Err(_) => default,
        };
        let rating_delta = if g.deleted {
            zero
        } else {
            update(rating_one, rating_two, g.score_one > g.score_two, g.challenge)
        };
        let after_one = plus(rating_one, rating_delta);
        let after_two = minus(rating_two, rating_delta);
        table.record_pair(
            g.player_one,
            at_one,
            (after_one, g.millis),
            g.player_two,
            at_two,
            (after_two, g.millis),
        );
        let r = Rated { id: g.id, rating_one, rating_two, rating_delta, after_one, after_two };
        let ghost before = rated@;
        rated.push(r);
        proof {
            assert(replayed(t, g, r, default, zero, decay, update, plus, minus));
            assert forall|j: int| 0 <= j <= k implies #[trigger] table_after(t0, games@, rated@, j as nat)
                == table_after(t0, games@, before, j as nat) by {
                lemma_table_after_prefix(t0, games@, before, r, j as nat);
            }
            assert(rated@[k as int] == r);
            lemma_table_after_prefix(t0, games@, before, r, k as nat);
            assert(table_after(t0, games@, rated@, k as nat) == t);
            assert(games@[k as int] == g);
            assert(table_after(t0, games@, rated@, (k + 1) as nat) == record(
                t,
                g.player_one,
                (after_one, g.millis),
                g.player_two,
                (after_two, g.millis),
            ));
            assert forall|j: int| 0 <= j < k + 1 implies replayed(
                table_after(t0, games@, rated@, j as nat),
                #[trigger] games@[j],
                rated@[j],
                default,
                zero,
                decay,
                update,
                plus,
                minus,
            ) by {
                if j < k {
                    assert(rated@[j] == before[j]);
                }
            }
        }
        k = k + 1;
    }
    proof {
        lemma_replay_each_game(t0, games@, rated@, default, zero, decay, update, plus, minus);
    }
    rated
}

/// Every ordered table has an answer to a search.
pub proof fn lemma_search_exists<V>(s: Seq<(Id, V)>, player: Id)
    requires
        ordered(s),
        s.len() < usize::MAX,
    ensures
        is_search_result(s, player, locate(s, player)),
    decreases s.len(),
{
    if s.len() == 0 {
        assert(is_search_result(s, player, Err::<usize, usize>(0)));
    } else {
        let t = s.drop_last();
        assert(ordered(t));
        lemma_search_exists(t, player);
        let r = locate(t, player);
        let n = (s.len() - 1) as int;
        let last = s[n].0;
        let w: Result<usize, usize> = match r {
            Ok(i) => Ok(i),
            Err(i) => if (i as int) < n {
                Err(i)
            } else if last == player {
                Ok(n as usize)
            } else if last < player {
                Err((n + 1) as usize)
            } else {
                Err(n as usize)
            },
        };
        match r {
            Ok(i) => {},
            Err(i) => {
                if (i as int) < n {
                    assert(t[i as int].0 > player);
                    assert(s[i as int].0 < last);
                    assert forall|j: int| i <= j < s.len() implies #[trigger] s[j].0 > player by {
                        if j < n {
                            assert(t[j] == s[j]);
                        }
                    }
                    assert forall|j: int| 0 <= j < i implies #[trigger] s[j].0 < player by {
                        assert(t[j] == s[j]);
                    }
                } else {
                    assert forall|j: int| 0 <= j < n implies #[trigger] s[j].0 < player by {
                        assert(t[j] == s[j]);
                    }
                }
            },
        }
        assert(is_search_result(s, player, w));
    }
}

/// The players of the first `k` of `games`.
pub open spec fn played(games: Seq<GameRecord>, k: int, player: Id) -> bool {
    exists|j: int|
        0 <= j < k && (#[trigger] games[j].player_one == player || games[j].player_two == player)
}

/// Recording one game between two different players keeps the table
/// ordered, grows it by at most two entries, and gives entries to exactly
/// the players it had and the two who played.
proof fn lemma_record_players<V>(t: Seq<(Id, V)>, one: Id, v1: V, two: Id, v2: V)
    requires
        ordered(t),
        one != two,
        t.len() + 2 < usize::MAX,
    ensures
        ordered(record(t, one, v1, two, v2)),
        record(t, one, v1, two, v2).len() <= t.len() + 2,
        forall|p: Id|
            #[trigger] holds(record(t, one, v1, two, v2), p) <==> (p == one || p == two || holds(t, p)),
{
    lemma_search_exists(t, one);
    lemma_search_exists(t, two);
    let a1 = locate(t, one);
    let a2 = locate(t, two);
    lemma_upsert(t, a1, one, v1);
    lemma_shifted(t, a1, one, v1, two, a2);
    let u = upsert_at(t, a1, one, v1);
    lemma_upsert(u, shifted(a1, one, two, a2), two, v2);
}

/// A player has played one of the first `k + 1` games exactly when it
/// played one of the first `k` or plays the next.
proof fn lemma_played_step(games: Seq<GameRecord>, k: int, p: Id)
    requires
        0 <= k < games.len(),
    ensures
        played(games, k + 1, p) <==> (played(games, k, p) || games[k].player_one == p
            || games[k].player_two == p),
{
    if played(games, k + 1, p) && !played(games, k, p) {
        let j = choose|j: int|
            0 <= j < k + 1 && (#[trigger] games[j].player_one == p || games[j].player_two == p);
        assert(j == k);
    }
    if played(games, k, p) {
        let j = choose|j: int|
            0 <= j < k && (#[trigger] games[j].player_one == p || games[j].player_two == p);
        assert(0 <= j < k + 1 && (games[j].player_one == p || games[j].player_two == p));
    }
    if games[k].player_one == p || games[k].player_two == p {
        assert(0 <= k < k + 1 && (games[k].player_one == p || games[k].player_two == p));
    }
}

/// Replaying games keeps the table ordered with one entry per player, and
/// afterwards exactly the players who had an entry before or played one of
/// the replayed games have one (where the table stays within what a vector
/// can hold).
#[verifier::spinoff_prover]
pub proof fn lemma_replay_players<V>(
    t0: Seq<(Id, (V, Millis))>,
    games: Seq<GameRecord>,
    rated: Seq<Rated<V>>,
    k: nat,
)
    requires
        ordered(t0),
        k <= games.len(),
        t0.len() + 2 * k < usize::MAX,
        forall|j: int| 0 <= j < games.len() ==> #[trigger] games[j].player_one != games[j].player_two,
    ensures
        ordered(table_after(t0, games, rated, k)),
        table_after(t0, games, rated, k).len() <= t0.len() + 2 * k,
        forall|p: Id|
            #[trigger] holds(table_after(t0, games, rated, k), p) <==> (holds(t0, p) || played(
                games,
                k as int,
                p,
            )),
    decreases k,
{
    if k > 0 {
        let k1 = (k - 1) as nat;
        lemma_replay_players(t0, games, rated, k1);
        let t = table_after(t0, games, rated, k1);
        let g = games[k1 as int];
        let r = rated[k1 as int];
        lemma_record_players(t, g.player_one, (r.after_one, g.millis), g.player_two, (r.after_two, g.millis));
        assert forall|p: Id| #[trigger]
            holds(table_after(t0, games, rated, k), p) <==> (holds(t0, p) || played(
                games,
                k as int,
                p,
            )) by {
            lemma_played_step(games, k1 as int, p);
        }
    }
}

/// `rated` is a replay of `games` from the table `t0`: one outcome per
/// game, each the replay of its game with the table that the games before
/// it left.
pub open spec fn replays<V, D, U, P, M>(
    t0: Seq<(Id, (V, Millis))>,
    games: Seq<GameRecord>,
    rated: Seq<Rated<V>>,
    default: V,
    zero: V,
    decay: D,
    update: U,
    plus: P,
    minus: M,
) -> bool where
    D: Fn(Millis, Millis, V) -> V,
    U: Fn(V, V, bool, bool) -> V,
    P: Fn(V, V) -> V,
    M: Fn(V, V) -> V,
 {
    &&& rated.len() == games.len()
    &&& forall|k: int|
        0 <= k < games.len() ==> replayed(
            table_after(t0, games, rated, k as nat),
            #[trigger] games[k],
            rated[k],
            default,
            zero,
            decay,
            update,
            plus,
            minus,
        )
}

/// The table after the first `k` games depends only on the first `k` games
/// and outcomes.
pub proof fn lemma_table_after_take<V>(
    t0: Seq<(Id, (V, Millis))>,
    games: Seq<GameRecord>,
    rated: Seq<Rated<V>>,
    a: int,
    k: nat,
)
    requires
        k <= a <= games.len(),
        a <= rated.len(),
    ensures
        table_after(t0, games.take(a), rated.take(a), k) == table_after(t0, games, rated, k),
    decreases k,
{
    if k > 0 {
        lemma_table_after_take(t0, games, rated, a, (k - 1) as nat);
    }
}

/// Replaying `a + b` games runs through the table after the first `a`: the
/// rest replay from it.
pub proof fn lemma_table_after_split<V>(
    t0: Seq<(Id, (V, Millis))>,
    games: Seq<GameRecord>,
    rated: Seq<Rated<V>>,
    a: nat,
    b: nat,
)
    requires
        a + b <= games.len(),
        a + b <= rated.len(),
    ensures
        table_after(t0, games, rated, a + b) == table_after(
            table_after(t0, games, rated, a),
            games.skip(a as int),
            rated.skip(a as int),
            b,
        ),
    decreases b,
{
    if b > 0 {
        lemma_table_after_split(t0, games, rated, a, (b - 1) as nat);
        assert(games.skip(a as int)[b - 1] == games[a + b - 1]);
        assert(rated.skip(a as int)[b - 1] == rated[a + b - 1]);
        assert((a + b - 1) as nat == (a + (b - 1)) as nat);
    }
}

/// The tables along the first `a` games are those of the whole run, and
/// the tables along the rest, from the table the first `a` left, are those
/// of the whole run from `a` on.
proof fn lemma_part_tables<V>(
    t0: Seq<(Id, (V, Millis))>,
    games: Seq<GameRecord>,
    rated: Seq<Rated<V>>,
    a: nat,
)
    requires
        a <= games.len(),
        rated.len() == games.len(),
    ensures
        forall|k: int|
            0 <= k < a ==> #[trigger] table_after(t0, games.take(a as int), rated.take(a as int), k as nat)
                == table_after(t0, games, rated, k as nat),
        forall|k: int|
            0 <= k <= games.len() - a ==> #[trigger] table_after(
                table_after(t0, games, rated, a),
                games.skip(a as int),
                rated.skip(a as int),
                k as nat,
            ) == table_after(t0, games, rated, (a + k) as nat),
{
    assert forall|k: int| 0 <= k < a implies #[trigger] table_after(
        t0,
        games.take(a as int),
        rated.take(a as int),
        k as nat,
    ) == table_after(t0, games, rated, k as nat) by {
        lemma_table_after_take(t0, games, rated, a as int, k as nat);
    }
    assert forall|k: int| 0 <= k <= games.len() - a implies #[trigger] table_after(
        table_after(t0, games, rated, a),
        games.skip(a as int),
        rated.skip(a as int),
        k as nat,
    ) == table_after(t0, games, rated, (a + k) as nat) by {
        lemma_table_after_split(t0, games, rated, a, k as nat);
    }
}

/// A replay of a whole run replays both of its parts.
proof fn lemma_replay_whole_to_parts<V, D, U, P, M>(
    t0: Seq<(Id, (V, Millis))>,
    games: Seq<GameRecord>,
    rated: Seq<Rated<V>>,
    a: nat,
    default: V,
    zero: V,
    decay: D,
    update: U,
    plus: P,
    minus: M,
) where
    D: Fn(Millis, Millis, V) -> V,
    U: Fn(V, V, bool, bool) -> V,
    P: Fn(V, V) -> V,
    M: Fn(V, V) -> V,

    requires
        a <= games.len(),
        rated.len() == games.len(),
        replays(t0, games, rated, default, zero, decay, update, plus, minus),
    ensures
        replays(
            t0,
            games.take(a as int),
            rated.take(a as int),
            default,
            zero,
            decay,
            update,
            plus,
            minus,
        ),
        replays(
            table_after(t0, games, rated, a),
            games.skip(a as int),
            rated.skip(a as int),
            default,
            zero,
            decay,
            update,
            plus,
            minus,
        ),
{
    lemma_part_tables(t0, games, rated, a);
    let first = games.take(a as int);
    let early = rated.take(a as int);
    let rest = games.skip(a as int);
    let late = rated.skip(a as int);
    let t1 = table_after(t0, games, rated, a);
    assert forall|k: int| 0 <= k < first.len() implies replayed(
        table_after(t0, first, early, k as nat),
        #[trigger] first[k],
        early[k],
        default,
        zero,
        decay,
        update,
        plus,
        minus,
    ) by {
        assert(first[k] == games[k]);
        assert(early[k] == rated[k]);
        assert(table_after(t0, first, early, k as nat) == table_after(t0, games, rated, k as nat));
    }
    assert forall|k: int| 0 <= k < rest.len() implies replayed(
        table_after(t1, rest, late, k as nat),
        #[trigger] rest[k],
        late[k],
        default,
        zero,
        decay,
        update,
        plus,
        minus,
    ) by {
        assert(rest[k] == games[a + k]);
        assert(late[k] == rated[a + k]);
        assert(table_after(t1, rest, late, k as nat) == table_after(t0, games, rated, (a + k) as nat));
    }
}

/// Replays of both parts of a run make a replay of the whole run.
proof fn lemma_replay_parts_to_whole<V, D, U, P, M>(
    t0: Seq<(Id, (V, Millis))>,
    games: Seq<GameRecord>,
    rated: Seq<Rated<V>>,
    a: nat,
    default: V,
    zero: V,
    decay: D,
    update: U,
    plus: P,
    minus: M,
) where
    D: Fn(Millis, Millis, V) -> V,
    U: Fn(V, V, bool, bool) -> V,
    P: Fn(V, V) -> V,
    M: Fn(V, V) -> V,

    requires
        a <= games.len(),
        rated.len() == games.len(),
        replays(
            t0,
            games.take(a as int),
            rated.take(a as int),
            default,
            zero,
            decay,
            update,
            plus,
            minus,
        ),
        replays(
            table_after(t0, games, rated, a),
            games.skip(a as int),
            rated.skip(a as int),
            default,
            zero,
            decay,
            update,
            plus,
            minus,
        ),
    ensures
        replays(t0, games, rated, default, zero, decay, update, plus, minus),
{
    lemma_part_tables(t0, games, rated, a);
    let first = games.take(a as int);
    let early = rated.take(a as int);
    let rest = games.skip(a as int);
    let late = rated.skip(a as int);
    let t1 = table_after(t0, games, rated, a);
    assert forall|k: int| 0 <= k < games.len() implies replayed(
        table_after(t0, games, rated, k as nat),
        #[trigger] games[k],
        rated[k],
        default,
        zero,
        decay,
        update,
        plus,
        minus,
    ) by {
        if k < a {
            assert(first[k] == games[k]);
            assert(early[k] == rated[k]);
            assert(table_after(t0, first, early, k as nat) == table_after(t0, games, rated, k as nat));
        } else {
            let i = k - a;
            assert(rest[i] == games[k]);
            assert(late[i] == rated[k]);
            assert(table_after(t1, rest, late, i as nat) == table_after(t0, games, rated, (a + i) as nat));
        }
    }
}

/// Ratings can be replayed from any point on: outcomes replay a run of
/// games from a table exactly when the first `a` of them replay the first
/// `a` games from that table and the rest replay the remaining games from
/// the table those left; both ways end with the same table.
#[verifier::spinoff_prover]
pub proof fn lemma_replay_in_two_parts<V, D, U, P, M>(
    t0: Seq<(Id, (V, Millis))>,
    games: Seq<GameRecord>,
    rated: Seq<Rated<V>>,
    a: nat,
    default: V,
    zero: V,
    decay: D,
    update: U,
    plus: P,
    minus: M,
) where
    D: Fn(Millis, Millis, V) -> V,
    U: Fn(V, V, bool, bool) -> V,
    P: Fn(V, V) -> V,
    M: Fn(V, V) -> V,

    requires
        a <= games.len(),
        rated.len() == games.len(),
    ensures
        replays(t0, games, rated, default, zero, decay, update, plus, minus) <==> (replays(
            t0,
            games.take(a as int),
            rated.take(a as int),
            default,
            zero,
            decay,
            update,
            plus,
            minus,
        ) && replays(
            table_after(t0, games, rated, a),
            games.skip(a as int),
            rated.skip(a as int),
            default,
            zero,
            decay,
            update,
            plus,
            minus,
        )),
        table_after(t0, games, rated, games.len()) == table_after(
            table_after(t0, games, rated, a),
            games.skip(a as int),
            rated.skip(a as int),
            (games.len() - a) as nat,
        ),
{
    lemma_table_after_split(t0, games, rated, a, (games.len() - a) as nat);
    if replays(t0, games, rated, default, zero, decay, update, plus, minus) {
        lemma_replay_whole_to_parts(t0, games, rated, a, default, zero, decay, update, plus, minus);
    }
    if replays(
        t0,
        games.take(a as int),
        rated.take(a as int),
        default,
        zero,
        decay,
        update,
        plus,
        minus,
    ) && replays(
        table_after(t0, games, rated, a),
        games.skip(a as int),
        rated.skip(a as int),
        default,
        zero,
        decay,
        update,
        plus,
        minus,
    ) {
        lemma_replay_parts_to_whole(t0, games, rated, a, default, zero, decay, update, plus, minus);
    }
}

/// What a replay does with each game, stated over the closures: the
/// outcome carries the game's id; a deleted game changes nothing; any other
/// game's change is what `update` gives for the ratings going in, whether
/// the first player won, and the game's own challenge flag; the first
/// player's rating after it is `plus` of its rating and the change, the
/// second's is `minus` of its rating and the change; and a player goes in
/// with its latest rating drifted by `decay` from the time of its last game
/// to this one, or with `default` where it has no rating yet.
pub proof fn lemma_replay_each_game<V, D, U, P, M>(
    t0: Seq<(Id, (V, Millis))>,
    games: Seq<GameRecord>,
    rated: Seq<Rated<V>>,
    default: V,
    zero: V,
    decay: D,
    update: U,
    plus: P,
    minus: M,
) where
    D: Fn(Millis, Millis, V) -> V,
    U: Fn(V, V, bool, bool) -> V,
    P: Fn(V, V) -> V,
    M: Fn(V, V) -> V,

    requires
        replays(t0, games, rated, default, zero, decay, update, plus, minus),
    ensures
        rated.len() == games.len(),
        forall|k: int|
            #![trigger games[k]]
            0 <= k < games.len() ==> {
                &&& rated[k].id == games[k].id
                &&& games[k].deleted ==> rated[k].rating_delta == zero
                &&& !games[k].deleted ==> call_ensures(
                    update,
                    (
                        rated[k].rating_one,
                        rated[k].rating_two,
                        games[k].score_one > games[k].score_two,
                        games[k].challenge,
                    ),
                    rated[k].rating_delta,
                )
                &&& call_ensures(plus, (rated[k].rating_one, rated[k].rating_delta), rated[k].after_one)
                &&& call_ensures(minus, (rated[k].rating_two, rated[k].rating_delta), rated[k].after_two)
                &&& match entry(table_after(t0, games, rated, k as nat), games[k].player_one) {
                    Some((v, last)) => call_ensures(decay, (last, games[k].millis, v), rated[k].rating_one),
                    None => rated[k].rating_one == default,
                }
                &&& match entry(table_after(t0, games, rated, k as nat), games[k].player_two) {
                    Some((v, last)) => call_ensures(decay, (last, games[k].millis, v), rated[k].rating_two),
                    None => rated[k].rating_two == default,
                }
            },
{
    assert forall|k: int| #![trigger games[k]] 0 <= k < games.len() implies {
        &&& rated[k].id == games[k].id
        &&& games[k].deleted ==> rated[k].rating_delta == zero
        &&& !games[k].deleted ==> call_ensures(
            update,
            (
                rated[k].rating_one,
                rated[k].rating_two,
                games[k].score_one > games[k].score_two,
                games[k].challenge,
            ),
            rated[k].rating_delta,
        )
        &&& call_ensures(plus, (rated[k].rating_one, rated[k].rating_delta), rated[k].after_one)
        &&& call_ensures(minus, (rated[k].rating_two, rated[k].rating_delta), rated[k].after_two)
        &&& match entry(table_after(t0, games, rated, k as nat), games[k].player_one) {
            Some((v, last)) => call_ensures(decay, (last, games[k].millis, v), rated[k].rating_one),
            None => rated[k].rating_one == default,
        }
        &&& match entry(table_after(t0, games, rated, k as nat), games[k].player_two) {
            Some((v, last)) => call_ensures(decay, (last, games[k].millis, v), rated[k].rating_two),
            None => rated[k].rating_two == default,
        }
    } by {
        assert(replayed(
            table_after(t0, games, rated, k as nat),
            games[k],
            rated[k],
            default,
            zero,
            decay,
            update,
            plus,
            minus,
        ));
    }
}

/// In an ordered table, the entry of a player is the value at the place
/// that holds it.
proof fn lemma_entry_at<V>(s: Seq<(Id, V)>, p: Id, i: int)
    requires
        ordered(s),
        s.len() < usize::MAX,
        0 <= i < s.len(),
        s[i].0 == p,
    ensures
        entry(s, p) == Some(s[i].1),
{
    assert(is_search_result(s, p, Ok::<usize, usize>(i as usize)));
    lemma_locate(s, p, Ok::<usize, usize>(i as usize));
}

/// In an ordered table, a player without an entry has none.
proof fn lemma_entry_none<V>(s: Seq<(Id, V)>, p: Id)
    requires
        ordered(s),
        s.len() < usize::MAX,
        !holds(s, p),
    ensures
        entry(s, p) is None,
{
    lemma_search_exists(s, p);
    if let Ok(i) = locate(s, p) {
        assert(s[i as int].0 == p);
    }
}

/// Recording a game between two different players sets the entry of each
/// to its value after the game and keeps every other player's entry.
pub proof fn lemma_record_entries<V>(t: Seq<(Id, V)>, one: Id, v1: V, two: Id, v2: V)
    requires
        ordered(t),
        one != two,
        t.len() + 2 < usize::MAX,
    ensures
        entry(record(t, one, v1, two, v2), one) == Some(v1),
        entry(record(t, one, v1, two, v2), two) == Some(v2),
        forall|p: Id|
            p != one && p != two ==> #[trigger] entry(record(t, one, v1, two, v2), p) == entry(t, p),
{
    let w = record(t, one, v1, two, v2);
    lemma_record_players(t, one, v1, two, v2);
    lemma_search_exists(t, one);
    lemma_search_exists(t, two);
    let a1 = locate(t, one);
    let a2 = locate(t, two);
    lemma_upsert(t, a1, one, v1);
    lemma_shifted(t, a1, one, v1, two, a2);
    let u = upsert_at(t, a1, one, v1);
    lemma_upsert(u, shifted(a1, one, two, a2), two, v2);
    assert(holds(w, one));
    let i1 = choose|i: int| 0 <= i < w.len() && #[trigger] w[i].0 == one;
    let m1 = choose|m: int| 0 <= m < u.len() && u[m] == w[i1];
    assert(u[m1].0 == one);
    lemma_entry_at(w, one, i1);
    assert(holds(w, two));
    let i2 = choose|i: int| 0 <= i < w.len() && #[trigger] w[i].0 == two;
    lemma_entry_at(w, two, i2);
    assert forall|p: Id| p != one && p != two implies #[trigger] entry(w, p) == entry(t, p) by {
        if holds(t, p) {
            let j = choose|j: int| 0 <= j < t.len() && #[trigger] t[j].0 == p;
            assert(u.contains(t[j]));
            let m = choose|m: int| 0 <= m < u.len() && u[m] == t[j];
            assert(w.contains(u[m]));
            let i = choose|i: int| 0 <= i < w.len() && w[i] == u[m];
            lemma_entry_at(w, p, i);
            lemma_entry_at(t, p, j);
        } else {
            assert(!holds(w, p));
            lemma_entry_none(w, p);
            lemma_entry_none(t, p);
        }
    }
}

/// The table after each replayed game: both players' entries are their
/// ratings after it, at the time of the game, and every other player's
/// entry is what it was before the game.
pub proof fn lemma_replay_table_step<V>(
    t0: Seq<(Id, (V, Millis))>,
    games: Seq<GameRecord>,
    rated: Seq<Rated<V>>,
    k: nat,
)
    requires
        ordered(t0),
        k < games.len(),
        t0.len() + 2 * games.len() < usize::MAX,
        forall|j: int| 0 <= j < games.len() ==> #[trigger] games[j].player_one != games[j].player_two,
    ensures
        entry(table_after(t0, games, rated, k + 1), games[k as int].player_one) == Some(
            (rated[k as int].after_one, games[k as int].millis),
        ),
        entry(table_after(t0, games, rated, k + 1), games[k as int].player_two) == Some(
            (rated[k as int].after_two, games[k as int].millis),
        ),
        forall|p: Id|
            p != games[k as int].player_one && p != games[k as int].player_two ==> #[trigger] entry(
                table_after(t0, games, rated, k + 1),
                p,
            ) == entry(table_after(t0, games, rated, k), p),
{
    lemma_replay_players(t0, games, rated, k);
    let t = table_after(t0, games, rated, k);
    let g = games[k as int];
    let r = rated[k as int];
    assert(table_after(t0, games, rated, k + 1) == record(
        t,
        g.player_one,
        (r.after_one, g.millis),
        g.player_two,
        (r.after_two, g.millis),
    ));
    lemma_record_entries(t, g.player_one, (r.after_one, g.millis), g.player_two, (r.after_two, g.millis));
}

} // verus!
