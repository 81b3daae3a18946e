//! Identifiers, timestamps and the records that the ladder keeps.
use vstd::prelude::*;
use vstd::std_specs::convert::FromSpecImpl;

verus! {

/// The identifier of a player, an invite or a game.
pub type Id = i64;

/// A point in time, in milliseconds since the Unix epoch.
#[derive(Debug, Copy, Clone, PartialEq, Eq, PartialOrd, Ord, Hash)]
pub struct Millis(pub i64);

impl Millis {
    /// The milliseconds that this point in time stands for.
    pub fn value(self) -> (r: i64)
        ensures
            r == self.0,
    {
        self.0
    }
}

impl From<i64> for Millis {
    fn from(value: i64) -> (r: Millis) {
        Millis(value)
    }
}

impl FromSpecImpl<i64> for Millis {
    open spec fn obeys_from_spec() -> bool {
        true
    }

    open spec fn from_spec(v: i64) -> Millis {
        Millis(v)
    }
}

impl From<Millis> for i64 {
    fn from(value: Millis) -> (r: i64) {
        value.0
    }
}

impl FromSpecImpl<Millis> for i64 {
    open spec fn obeys_from_spec() -> bool {
        true
    }

    open spec fn from_spec(v: Millis) -> i64 {
        v.0
    }
}

/// A registered player as the access checks see it.
#[derive(Debug, Clone, PartialEq, Eq)]
pub struct User {
    pub id: Id,
    pub name: String,
    pub email: String,
}

/// A registered player.
#[derive(Debug, Clone, PartialEq, Eq)]
pub struct Player {
    pub id: Id,
    pub name: String,
    pub email: String,
    pub inviter: Option<Id>,
    pub created_ms: Millis,
}

/// A player in the compact positional form that is sent to clients.
#[derive(Debug, Clone, PartialEq, Eq)]
pub struct PlayerTuple(pub Id, pub String, pub String, pub Option<Id>, pub Millis);

/// A pending invitation of a new player.
#[derive(Debug, Clone, PartialEq, Eq)]
pub struct Invite {
    pub id: Id,
    pub inviter: Id,
    pub name: String,
    pub email: String,
    pub created_ms: Millis,
}

/// An invite in the compact positional form that is sent to clients.
#[derive(Debug, Clone, PartialEq, Eq)]
pub struct InviteTuple(pub Id, pub Id, pub String, pub String, pub Millis);

/// The positional form of a player.
pub open spec fn player_tuple(p: Player) -> PlayerTuple {
    PlayerTuple(p.id, p.name, p.email, p.inviter, p.created_ms)
}

/// The player of a positional form.
pub open spec fn tuple_player(t: PlayerTuple) -> Player {
    Player { id: t.0, name: t.1, email: t.2, inviter: t.3, created_ms: t.4 }
}

/// The positional form of an invite.
pub open spec fn invite_tuple(i: Invite) -> InviteTuple {
    InviteTuple(i.id, i.inviter, i.name, i.email, i.created_ms)
}

/// The invite of a positional form.
pub open spec fn tuple_invite(t: InviteTuple) -> Invite {
    Invite { id: t.0, inviter: t.1, name: t.2, email: t.3, created_ms: t.4 }
}

impl From<Player> for PlayerTuple {
    fn from(value: Player) -> (r: PlayerTuple) {
        PlayerTuple(value.id, value.name, value.email, value.inviter, value.created_ms)
    }
}

impl FromSpecImpl<Player> for PlayerTuple {
    open spec fn obeys_from_spec() -> bool {
        true
    }

    open spec fn from_spec(v: Player) -> PlayerTuple {
        player_tuple(v)
    }
}

impl From<PlayerTuple> for Player {
    fn from(value: PlayerTuple) -> (r: Player) {
        Player {
            id: value.0,
            name: value.1,
            email: value.2,
            inviter: value.3,
            created_ms: value.4,
        }
    }
}

impl FromSpecImpl<PlayerTuple> for Player {
    open spec fn obeys_from_spec() -> bool {
        true
    }

    open spec fn from_spec(v: PlayerTuple) -> Player {
        tuple_player(v)
    }
}

impl From<Invite> for InviteTuple {
    fn from(value: Invite) -> (r: InviteTuple) {
        InviteTuple(value.id, value.inviter, value.name, value.email, value.created_ms)
    }
}

impl FromSpecImpl<Invite> for InviteTuple {
    open spec fn obeys_from_spec() -> bool {
        true
    }

    open spec fn from_spec(v: Invite) -> InviteTuple {
        invite_tuple(v)
    }
}

impl From<InviteTuple> for Invite {
    fn from(value: InviteTuple) -> (r: Invite) {
        Invite {
            id: value.0,
            inviter: value.1,
            name: value.2,
            email: value.3,
            created_ms: value.4,
        }
    }
}

impl FromSpecImpl<InviteTuple> for Invite {
    open spec fn obeys_from_spec() -> bool {
        true
    }

    open spec fn from_spec(v: InviteTuple) -> Invite {
        tuple_invite(v)
    }
}

/// A player and its positional form convert into each other without loss,
/// both ways.
pub proof fn lemma_player_tuple_round_trip(p: Player, t: PlayerTuple)
    ensures
        tuple_player(player_tuple(p)) == p,
        player_tuple(tuple_player(t)) == t,
{
}

/// An invite and its positional form convert into each other without loss,
/// both ways.
pub proof fn lemma_invite_tuple_round_trip(i: Invite, t: InviteTuple)
    ensures
        tuple_invite(invite_tuple(i)) == i,
        invite_tuple(tuple_invite(t)) == t,
{
}

/// The positional form of a list of players, in the same order.
pub fn players_to_tuples(players: Vec<Player>) -> (r: Vec<PlayerTuple>)
    ensures
        r@ == players@.map_values(|p: Player| player_tuple(p)),
{
    let ghost all = players@;
    let mut out: Vec<PlayerTuple> = Vec::new();
    for p in iter: players.into_iter()
        invariant
            iter.seq() == all,
            out@ == all.take(iter.index() as int).map_values(|p: Player| player_tuple(p)),
    {
        let ghost k = iter.index();
        out.push(PlayerTuple::from(p));
        assert(all.take(k + 1) =~= all.take(k as int).push(all[k as int]));
    }
    assert(all.take(all.len() as int) =~= all);
    out
}

/// The positional form of a list of invites, in the same order.
pub fn invites_to_tuples(invites: Vec<Invite>) -> (r: Vec<InviteTuple>)
    ensures
        r@ == invites@.map_values(|i: Invite| invite_tuple(i)),
{
    let ghost all = invites@;
    let mut out: Vec<InviteTuple> = Vec::new();
    for i in iter: invites.into_iter()
        invariant
            iter.seq() == all,
            out@ == all.take(iter.index() as int).map_values(|i: Invite| invite_tuple(i)),
    {
        let ghost k = iter.index();
        out.push(InviteTuple::from(i));
        assert(all.take(k + 1) =~= all.take(k as int).push(all[k as int]));
    }
    assert(all.take(all.len() as int) =~= all);
    out
}

/// One past state of a game, recorded when the game was changed.
#[derive(Debug, Copy, Clone, PartialEq, Eq)]
pub struct History {
    pub id: Id,
    pub game: Id,
    pub player_one: Id,
    pub player_two: Id,
    pub score_one: i64,
    pub score_two: i64,
    pub challenge: bool,
    pub deleted: bool,
    pub millis: Millis,
    pub created_ms: Millis,
}

/// A past state of a game in the compact positional form.
#[derive(Debug, Copy, Clone, PartialEq, Eq)]
pub struct HistoryTuple(
    pub Id,
    pub Id,
    pub Id,
    pub Id,
    pub i64,
    pub i64,
    pub bool,
    pub bool,
    pub Millis,
    pub Millis,
);

/// The positional form of a past state.
pub open spec fn history_tuple(h: History) -> HistoryTuple {
    HistoryTuple(
        h.id,
        h.game,
        h.player_one,
        h.player_two,
        h.score_one,
        h.score_two,
        h.challenge,
        h.deleted,
        h.millis,
        h.created_ms,
    )
}

/// The past state of a positional form.
pub open spec fn tuple_history(t: HistoryTuple) -> History {
    History {
        id: t.0,
        game: t.1,
        player_one: t.2,
        player_two: t.3,
        score_one: t.4,
        score_two: t.5,
        challenge: t.6,
        deleted: t.7,
        millis: t.8,
        created_ms: t.9,
    }
}

impl From<History> for HistoryTuple {
    fn from(value: History) -> (r: HistoryTuple) {
        HistoryTuple(
            value.id,
            value.game,
            value.player_one,
            value.player_two,
            value.score_one,
            value.score_two,
            value.challenge,
            value.deleted,
            value.millis,
            value.created_ms,
        )
    }
}

impl FromSpecImpl<History> for HistoryTuple {
    open spec fn obeys_from_spec() -> bool {
        true
    }

    open spec fn from_spec(v: History) -> HistoryTuple {
        history_tuple(v)
    }
}

impl From<HistoryTuple> for History {
    fn from(value: HistoryTuple) -> (r: History) {
        History {
            id: value.0,
            game: value.1,
            player_one: value.2,
            player_two: value.3,
            score_one: value.4,
            score_two: value.5,
            challenge: value.6,
            deleted: value.7,
            millis: value.8,
            created_ms: value.9,
        }
    }
}

impl FromSpecImpl<HistoryTuple> for History {
    open spec fn obeys_from_spec() -> bool {
        true
    }

    open spec fn from_spec(v: HistoryTuple) -> History {
        tuple_history(v)
    }
}

/// A past state and its positional form convert into each other without
/// loss, both ways.
pub proof fn lemma_history_tuple_round_trip(h: History, t: HistoryTuple)
    ensures
        tuple_history(history_tuple(h)) == h,
        history_tuple(tuple_history(t)) == t,
{
}

/// The positional form of a list of past states, in the same order.
pub fn histories_to_tuples(history: Vec<History>) -> (r: Vec<HistoryTuple>)
    ensures
        r@ == history@.map_values(|h: History| history_tuple(h)),
{
    let ghost all = history@;
    let mut out: Vec<HistoryTuple> = Vec::new();
    for h in iter: history.into_iter()
        invariant
            iter.seq() == all,
            out@ == all.take(iter.index() as int).map_values(|h: History| history_tuple(h)),
    {
        let ghost k = iter.index();
        out.push(HistoryTuple::from(h));
        assert(all.take(k + 1) =~= all.take(k as int).push(all[k as int]));
    }
    assert(all.take(all.len() as int) =~= all);
    out
}

/// A game without its ratings: who played, the score, whether it was a
/// challenge or deleted, and when it was played. These are the fields that
/// a client may set when it edits a game; the ratings are the server's to
/// compute.
#[derive(Debug, Copy, Clone, PartialEq, Eq)]
pub struct GameRecord {
    pub id: Id,
    pub player_one: Id,
    pub player_two: Id,
    pub score_one: i64,
    pub score_two: i64,
    pub challenge: bool,
    pub deleted: bool,
    pub millis: Millis,
}

/// The positional forms keep each field at its place: a player is sent as
/// id, name, email, inviter, time of creation; an invite as id, inviter,
/// name, email, time of creation; a past state of a game as its id, the
/// game's id, the two players, the two scores, whether it was a challenge,
/// whether it was deleted, its time, and the time of the change; and each
/// position reads back into the field it came from.
pub proof fn lemma_tuple_positions(
    p: Player,
    pt: PlayerTuple,
    i: Invite,
    it: InviteTuple,
    h: History,
    ht: HistoryTuple,
)
    ensures
        player_tuple(p).0 == p.id && player_tuple(p).1 == p.name && player_tuple(p).2 == p.email
            && player_tuple(p).3 == p.inviter && player_tuple(p).4 == p.created_ms,
        tuple_player(pt).id == pt.0 && tuple_player(pt).name == pt.1 && tuple_player(pt).email
            == pt.2 && tuple_player(pt).inviter == pt.3 && tuple_player(pt).created_ms == pt.4,
        invite_tuple(i).0 == i.id && invite_tuple(i).1 == i.inviter && invite_tuple(i).2 == i.name
            && invite_tuple(i).3 == i.email && invite_tuple(i).4 == i.created_ms,
        tuple_invite(it).id == it.0 && tuple_invite(it).inviter == it.1 && tuple_invite(it).name
            == it.2 && tuple_invite(it).email == it.3 && tuple_invite(it).created_ms == it.4,
        history_tuple(h).0 == h.id && history_tuple(h).1 == h.game && history_tuple(h).2
            == h.player_one && history_tuple(h).3 == h.player_two && history_tuple(h).4
            == h.score_one && history_tuple(h).5 == h.score_two && history_tuple(h).6 == h.challenge
            && history_tuple(h).7 == h.deleted && history_tuple(h).8 == h.millis
            && history_tuple(h).9 == h.created_ms,
        tuple_history(ht).id == ht.0 && tuple_history(ht).game == ht.1 && tuple_history(ht).player_one
            == ht.2 && tuple_history(ht).player_two == ht.3 && tuple_history(ht).score_one == ht.4
            && tuple_history(ht).score_two == ht.5 && tuple_history(ht).challenge == ht.6
            && tuple_history(ht).deleted == ht.7 && tuple_history(ht).millis == ht.8
            && tuple_history(ht).created_ms == ht.9,
{
}

} // verus!
