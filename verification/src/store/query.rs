//! The statement that writes the replayed ratings of many games back at
//! once: one `CASE` per rating column, keyed by the game's id.
use vstd::prelude::*;

verus! {

/// A rating column of the games table.
#[derive(Debug, Clone, Copy, PartialEq, Eq, Structural)]
pub enum Column {
    RatingOne,
    RatingTwo,
    RatingDelta,
}

/// A value bound to a placeholder of the statement: a game's id, or a
/// rating column of the update at an index of the list of updates.
#[derive(Debug, Clone, Copy, PartialEq, Eq, Structural)]
pub enum Bind {
    Id(i64),
    Rating(Column, usize),
}

/// The statement's text and the values of its placeholders, in order.
#[derive(Debug)]
pub struct UpdateQuery {
    pub text: String,
    pub binds: Vec<Bind>,
}

/// One arm of a `CASE`.
pub open spec fn when_arm() -> Seq<char> {
    " WHEN id = ? THEN ?"@
}

/// `s` written `n` times.
pub open spec fn repeated(s: Seq<char>, n: nat) -> Seq<char>
    decreases n,
{
    if n == 0 {
        Seq::empty()
    } else {
        repeated(s, (n - 1) as nat) + s
    }
}

/// `n` placeholders separated by commas.
pub open spec fn placeholders(n: nat) -> Seq<char>
    decreases n,
{
    if n == 0 {
        Seq::empty()
    } else if n == 1 {
        "?"@
    } else {
        placeholders((n - 1) as nat) + ",?"@
    }
}

/// The text of the statement that updates `n` games.
pub open spec fn update_text(n: nat) -> Seq<char> {
    "UPDATE games SET rating_one = CASE"@ + repeated(when_arm(), n)
        + " ELSE rating_one END, rating_two = CASE"@ + repeated(when_arm(), n)
        + " ELSE rating_two END, rating_delta = CASE"@ + repeated(when_arm(), n)
        + " ELSE rating_delta END WHERE id IN ("@ + placeholders(n)
        + ") RETURNING id, player_one, player_two, score_one, score_two, rating_one, rating_two, rating_delta, challenge, deleted, millis, created_ms"@
}

/// The values of the arms of one column's `CASE` for the first `k` games:
/// each game's id, then its rating in that column.
pub open spec fn case_binds(ids: Seq<i64>, column: Column, k: nat) -> Seq<Bind>
    decreases k,
{
    if k == 0 {
        Seq::empty()
    } else {
        case_binds(ids, column, (k - 1) as nat) + seq![
            Bind::Id(ids[k - 1]),
            Bind::Rating(column, (k - 1) as usize),
        ]
    }
}

/// The values of all placeholders of the statement that updates the games
/// of `ids`.
pub open spec fn update_binds(ids: Seq<i64>) -> Seq<Bind> {
    case_binds(ids, Column::RatingOne, ids.len()) + case_binds(ids, Column::RatingTwo, ids.len())
        + case_binds(ids, Column::RatingDelta, ids.len()) + ids.map_values(|id: i64| Bind::Id(id))
}

/// Appends the arms of one column's `CASE` for every game of `ids`.
fn push_cases(text: &mut String, binds: &mut Vec<Bind>, ids: &[i64], column: Column)
    ensures
        final(text)@ == old(text)@ + repeated(when_arm(), ids@.len()),
        final(binds)@ == old(binds)@ + case_binds(ids@, column, ids@.len()),
{
    let n = ids.len();
    let mut i: usize = 0;
    proof {
        reveal_strlit(" WHEN id = ? THEN ?");
    }
    assert(old(text)@ =~= old(text)@ + repeated(when_arm(), 0));
    assert(old(binds)@ =~= old(binds)@ + case_binds(ids@, column, 0));
    while i < n
        invariant
            n == ids@.len(),
            i <= n,
            text@ == old(text)@ + repeated(when_arm(), i as nat),
            binds@ == old(binds)@ + case_binds(ids@, column, i as nat),
        decreases n - i,
    {
        text.append(" WHEN id = ? THEN ?");
        binds.push(Bind::Id(ids[i]));
        binds.push(Bind::Rating(column, i));
        assert(text@ =~= old(text)@ + repeated(when_arm(), (i + 1) as nat));
        assert(binds@ =~= old(binds)@ + case_binds(ids@, column, (i + 1) as nat));
        i = i + 1;
    }
}

/// The statement that writes the replayed ratings of the games of `ids`
/// back, with the values of its placeholders; `None` where there is no
/// game to update.
pub fn update_query(ids: &[i64]) -> (r: Option<UpdateQuery>)
    ensures
        ids@.len() == 0 ==> r is None,
        ids@.len() > 0 ==> (r matches Some(q) && q.text@ == update_text(ids@.len()) && q.binds@
            == update_binds(ids@)),
{
    let n = ids.len();
    if n == 0 {
        return None;
    }
    let mut text = String::from_str("UPDATE games SET rating_one = CASE");
    let mut binds: Vec<Bind> = Vec::new();
    push_cases(&mut text, &mut binds, ids, Column::RatingOne);
    text.append(" ELSE rating_one END, rating_two = CASE");
    push_cases(&mut text, &mut binds, ids, Column::RatingTwo);
    text.append(" ELSE rating_two END, rating_delta = CASE");
    push_cases(&mut text, &mut binds, ids, Column::RatingDelta);
    text.append(" ELSE rating_delta END WHERE id IN (");
    let ghost head = text@;
    let ghost cases = binds@;
    let mut i: usize = 0;
    proof {
        reveal_strlit("?");
        reveal_strlit(",?");
    }
    while i < n
        invariant
            n == ids@.len(),
            i <= n,
            text@ == head + placeholders(i as nat),
            binds@ == cases + ids@.take(i as int).map_values(|id: i64| Bind::Id(id)),
        decreases n - i,
    {
        if i == 0 {
            text.append("?");
        } else {
            text.append(",?");
        }
        binds.push(Bind::Id(ids[i]));
        assert(text@ =~= head + placeholders((i + 1) as nat));
        assert(ids@.take(i + 1).map_values(|id: i64| Bind::Id(id)) =~= ids@.take(
            i as int,
        ).map_values(|id: i64| Bind::Id(id)).push(Bind::Id(ids@[i as int])));
        i = i + 1;
    }
    text.append(
        ") RETURNING id, player_one, player_two, score_one, score_two, rating_one, rating_two, rating_delta, challenge, deleted, millis, created_ms",
    );
    assert(ids@.take(n as int) =~= ids@);
    assert(text@ =~= update_text(n as nat));
    Some(UpdateQuery { text, binds })
}

} // verus!
