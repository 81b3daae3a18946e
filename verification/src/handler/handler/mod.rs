//! The decisions of a handler: what a request of a user with a given access
//! calls on the store, and what the store's answer is turned into.

pub mod game;
pub mod invite;
pub mod player;

use vstd::prelude::*;

use super::access::{Access, User};
use super::model::{self, request, Error, Push, Response};
use crate::mailbox::{self, mailbox_outcome, Mailbox};
use crate::smtp::Payload;
use crate::store;
use crate::types::{self, GameRecord, Id, Millis};

verus! {

/// The version of the protocol that the server speaks.
pub const VERSION: u32 = 4;

/// A call on the store that a request needs.
#[derive(Debug)]
pub enum StoreCall {
    /// The current version of the stored data.
    DataVersion,
    ListPlayers,
    RenamePlayer { id: Id, name: String },
    ListInvites,
    Invite { inviter: Id, mailbox: Mailbox },
    CancelInvite { inviter: Id, id: Id },
    AcceptInvite { id: Id, email: String },
    RejectInvite { id: Id, email: String },
    ListGames,
    RegisterGame {
        player_one: Id,
        player_two: Id,
        score_one: u8,
        score_two: u8,
        challenge: bool,
        millis: Millis,
    },
    UpdateGame(GameRecord),
    GameHistory(Id),
}

/// What a handler does with a request.
#[derive(Debug)]
pub enum Step {
    /// Answers at once.
    Reply(Response),
    /// Refuses at once.
    Refuse(Error),
    /// Asks the store first.
    Call(StoreCall),
}

/// The store's answer to a call, where it holds no rating.
#[derive(Debug)]
pub enum StoreReply {
    DataVersion(u32),
    Players(Vec<types::Player>),
    Renamed(types::Player),
    Invites(Vec<types::Invite>),
    Invited(types::Invite),
    Cancelled(types::Invite),
    /// The new player and the user who invited it.
    Accepted(types::Player, types::User),
    /// The withdrawn invite and the user who made it.
    Rejected(types::Invite, types::User),
    History(Vec<types::History>),
}

/// What a handled request yields: the answer, the change to tell every
/// connected user, and the mail to send.
#[derive(Debug)]
pub struct Outcome {
    pub response: Response,
    pub push: Option<Push>,
    pub mail: Option<Payload>,
}

/// The request is refused as forbidden to a user of this kind of access:
/// an invited user may only ask who it is, the version, and accept or
/// reject its invitation; a registered player may not do those last two.
pub open spec fn forbidden(pending: bool, req: model::Request) -> bool {
    if pending {
        match req {
            model::Request::Version => false,
            model::Request::Player(request::Player::Id) => false,
            model::Request::Invite(request::Invite::Accept) => false,
            model::Request::Invite(request::Invite::Reject) => false,
            _ => true,
        }
    } else {
        match req {
            model::Request::Invite(request::Invite::Accept) => true,
            model::Request::Invite(request::Invite::Reject) => true,
            _ => false,
        }
    }
}

/// The store call of a registered player's game request.
pub open spec fn game_call(req: request::Game) -> StoreCall {
    match req {
        request::Game::List => StoreCall::ListGames,
        request::Game::Register { player, opponent, score, opponent_score, challenge, millis } =>
            StoreCall::RegisterGame {
            player_one: player,
            player_two: opponent,
            score_one: score,
            score_two: opponent_score,
            challenge,
            millis,
        },
        request::Game::Update(g) => StoreCall::UpdateGame(g),
        request::Game::History(id) => StoreCall::GameHistory(id),
    }
}

/// A handler of the requests of one user.
#[derive(Debug)]
pub struct Handler<A: Access> {
    user: User<A>,
}

impl<A: Access> Handler<A> {
    /// The user whose requests are handled.
    pub closed spec fn spec_user(&self) -> User<A> {
        self.user
    }

    /// A handler of the requests of `user`.
    pub fn new(user: User<A>) -> (r: Self)
        ensures
            r.spec_user() == user,
    {
        Handler { user }
    }

    /// The user whose requests are handled.
    pub fn user(&self) -> (r: &User<A>)
        ensures
            *r == self.spec_user(),
    {
        &self.user
    }

    /// `step` is what the handler does with `req`.
    pub open spec fn planned(&self, req: model::Request, step: Step) -> bool {
        let u = self.spec_user();
        if forbidden(A::pending(), req) {
            step matches Step::Refuse(Error::Forbidden)
        } else {
            match req {
                model::Request::Version => step matches Step::Call(StoreCall::DataVersion),
                model::Request::Player(p) => match p {
                    request::Player::Id => step matches Step::Reply(Response::User { id, pending })
                        && id == u.spec_id() && pending == if A::pending() {
                        Some(true)
                    } else {
                        None::<bool>
                    },
                    request::Player::List => step matches Step::Call(StoreCall::ListPlayers),
                    request::Player::Rename(name) => step matches Step::Call(
                        StoreCall::RenamePlayer { id, name: n },
                    ) && id == u.spec_id() && n == name,
                },
                model::Request::Invite(i) => match i {
                    request::Invite::List => step matches Step::Call(StoreCall::ListInvites),
                    request::Invite::Player(p) => match mailbox_outcome(p.name@, p.email@) {
                        Err(e) => step matches Step::Refuse(Error::InvalidEmail(f)) && f == e,
                        Ok((n, e)) => step matches Step::Call(StoreCall::Invite { inviter, mailbox })
                            && inviter == u.spec_id() && mailbox.spec_name() == n
                            && mailbox.spec_email() == e,
                    },
                    request::Invite::Cancel(id) => step matches Step::Call(
                        StoreCall::CancelInvite { inviter, id: c },
                    ) && inviter == u.spec_id() && c == id,
                    request::Invite::Accept => step matches Step::Call(
                        StoreCall::AcceptInvite { id, email },
                    ) && id == u.spec_id() && email@ == u.spec_email(),
                    request::Invite::Reject => step matches Step::Call(
                        StoreCall::RejectInvite { id, email },
                    ) && id == u.spec_id() && email@ == u.spec_email(),
                },
                model::Request::Game(g) => step == Step::Call(game_call(g)),
            }
        }
    }

    /// What the handler does with `request`: the answer, the refusal, or
    /// the store call that it needs.
    pub fn plan(&self, request: model::Request) -> (r: Step)
        ensures
            self.planned(request, r),
    {
        match request {
            model::Request::Version => Step::Call(StoreCall::DataVersion),
            model::Request::Player(p) => player::Player::new(self).plan(p),
            model::Request::Invite(i) => invite::Invite::new(self).plan(i),
            model::Request::Game(g) => game::Game::new(self).plan(g),
        }
    }
}

/// The store's answer fits the call.
pub open spec fn answers(call: StoreCall, reply: StoreReply) -> bool {
    match (call, reply) {
        (StoreCall::DataVersion, StoreReply::DataVersion(_)) => true,
        (StoreCall::ListPlayers, StoreReply::Players(_)) => true,
        (StoreCall::RenamePlayer { .. }, StoreReply::Renamed(_)) => true,
        (StoreCall::ListInvites, StoreReply::Invites(_)) => true,
        (StoreCall::Invite { .. }, StoreReply::Invited(_)) => true,
        (StoreCall::CancelInvite { .. }, StoreReply::Cancelled(_)) => true,
        (StoreCall::AcceptInvite { .. }, StoreReply::Accepted(_, _)) => true,
        (StoreCall::RejectInvite { .. }, StoreReply::Rejected(_, _)) => true,
        (StoreCall::GameHistory(_), StoreReply::History(_)) => true,
        _ => false,
    }
}

/// Whether the store's answer fits the call.
pub fn fits(call: &StoreCall, reply: &StoreReply) -> (r: bool)
    ensures
        r == answers(*call, *reply),
{
    match (call, reply) {
        (StoreCall::DataVersion, StoreReply::DataVersion(_)) => true,
        (StoreCall::ListPlayers, StoreReply::Players(_)) => true,
        (StoreCall::RenamePlayer { .. }, StoreReply::Renamed(_)) => true,
        (StoreCall::ListInvites, StoreReply::Invites(_)) => true,
        (StoreCall::Invite { .. }, StoreReply::Invited(_)) => true,
        (StoreCall::CancelInvite { .. }, StoreReply::Cancelled(_)) => true,
        (StoreCall::AcceptInvite { .. }, StoreReply::Accepted(_, _)) => true,
        (StoreCall::RejectInvite { .. }, StoreReply::Rejected(_, _)) => true,
        (StoreCall::GameHistory(_), StoreReply::History(_)) => true,
        _ => false,
    }
}

/// The call's answer holds no rating, so the handler completes it itself.
pub open spec fn rating_free(call: StoreCall) -> bool {
    !(call matches StoreCall::ListGames) && !(call matches StoreCall::RegisterGame { .. })
        && !(call matches StoreCall::UpdateGame(_))
}

/// The call changes the stored data.
pub open spec fn mutates(call: StoreCall) -> bool {
    ||| call matches StoreCall::RenamePlayer { .. }
    ||| call matches StoreCall::Invite { .. }
    ||| call matches StoreCall::CancelInvite { .. }
    ||| call matches StoreCall::AcceptInvite { .. }
    ||| call matches StoreCall::RejectInvite { .. }
    ||| call matches StoreCall::RegisterGame { .. }
    ||| call matches StoreCall::UpdateGame(_)
}

/// The call sends mail when it succeeds: an invitation, and the answer to
/// one.
pub open spec fn mails(call: StoreCall) -> bool {
    ||| call matches StoreCall::Invite { .. }
    ||| call matches StoreCall::AcceptInvite { .. }
    ||| call matches StoreCall::RejectInvite { .. }
}

/// The store's successful answer `reply` to `call`, made for the user
/// `before` who became `after`, yields the outcome `o`.
pub open spec fn completed<A: Access>(
    before: User<A>,
    after: User<A>,
    call: StoreCall,
    reply: StoreReply,
    o: Outcome,
) -> bool {
    let same_user = after == before;
    match reply {
        StoreReply::DataVersion(v) => same_user && o.response == (Response::Version {
            server: VERSION,
            data: v,
        }) && o.push is None && o.mail is None,
        StoreReply::Players(ps) => same_user && (o.response matches Response::Players(ts) && ts@
            == ps@.map_values(|p: types::Player| types::player_tuple(p))) && o.push is None
            && o.mail is None,
        StoreReply::Renamed(p) => {
            &&& o.response == Response::Done
            &&& o.push matches Some(Push::Player(model::push::Player::Renamed(rn)))
            &&& rn.player == p.id && rn.old@ == before.spec_name() && rn.new@ == p.name@
            &&& o.mail is None
            &&& after.spec_name() == p.name@
            &&& after.spec_id() == before.spec_id()
            &&& after.spec_email() == before.spec_email()
        },
        StoreReply::Invites(is) => same_user && (o.response matches Response::Invites(ts) && ts@
            == is@.map_values(|i: types::Invite| types::invite_tuple(i))) && o.push is None
            && o.mail is None,
        StoreReply::Invited(i) => {
            &&& same_user
            &&& o.response == Response::Done
            &&& o.push == Some(Push::Player(model::push::Player::Invited(i)))
            &&& call matches StoreCall::Invite { mailbox, .. }
            &&& o.mail == Some(Payload::Invite(mailbox))
        },
        StoreReply::Cancelled(i) => same_user && o.response == Response::Done && o.push == Some(
            Push::Player(model::push::Player::Uninvited(i)),
        ) && o.mail is None,
        StoreReply::Accepted(p, inviter) => {
            &&& same_user
            &&& o.response == Response::Done
            &&& o.push == Some(Push::Player(model::push::Player::Joined(p)))
            &&& o.mail matches Some(Payload::InviteOutcome { inviter: pi, invitee: pe, accepted })
            &&& pi.name@ == inviter.name@ && pi.email@ == inviter.email@
            &&& pe.name@ == before.spec_name() && pe.email@ == before.spec_email()
            &&& accepted
        },
        StoreReply::Rejected(i, inviter) => {
            &&& same_user
            &&& o.response == Response::Done
            &&& o.push == Some(Push::Player(model::push::Player::Uninvited(i)))
            &&& o.mail matches Some(Payload::InviteOutcome { inviter: pi, invitee: pe, accepted })
            &&& pi.name@ == inviter.name@ && pi.email@ == inviter.email@
            &&& pe.name@ == before.spec_name() && pe.email@ == before.spec_email()
            &&& !accepted
        },
        StoreReply::History(hs) => same_user && (o.response matches Response::History(ts) && ts@
            == hs@.map_values(|h: types::History| types::history_tuple(h))) && o.push is None
            && o.mail is None,
    }
}

impl<A: Access> Handler<A> {
    /// Turns the store's answer to `call` into the outcome of the request:
    /// a failure of the store is the request's failure; a rename also
    /// renames the user of the handler.
    pub fn complete(&mut self, call: StoreCall, reply: Result<StoreReply, store::Error>) -> (r:
        Result<Outcome, Error>)
        requires
            rating_free(call),
            reply matches Ok(x) ==> answers(call, x),
        ensures
            match reply {
                Err(e) => r == Err::<Outcome, Error>(Error::Store(e)) && final(self).spec_user()
                    == old(self).spec_user(),
                Ok(x) => r matches Ok(o) && completed(
                    old(self).spec_user(),
                    final(self).spec_user(),
                    call,
                    x,
                    o,
                ),
            },
    {
        let reply = match reply {
            Err(e) => return Err(Error::Store(e)),
            Ok(x) => x,
        };
        match reply {
            StoreReply::DataVersion(v) => Ok(
                Outcome { response: Response::Version { server: VERSION, data: v }, push: None, mail: None },
            ),
            StoreReply::Players(ps) => Ok(
                Outcome {
                    response: Response::Players(types::players_to_tuples(ps)),
                    push: None,
                    mail: None,
                },
            ),
            StoreReply::Renamed(p) => {
                let old = self.user.name().clone();
                let new = p.name.clone();
                self.user.update_name(p.name);
                let push = Push::Player(
                    model::push::Player::Renamed(model::push::Renamed { player: p.id, old, new }),
                );
                Ok(Outcome { response: Response::Done, push: Some(push), mail: None })
            },
            StoreReply::Invites(is) => Ok(
                Outcome {
                    response: Response::Invites(types::invites_to_tuples(is)),
                    push: None,
                    mail: None,
                },
            ),
            StoreReply::Invited(i) => {
                let mailbox = match call {
                    StoreCall::Invite { mailbox, .. } => mailbox,
                    _ => {
                        assert(false);
                        return Err(Error::Forbidden);
                    },
                };
                Ok(
                    Outcome {
                        response: Response::Done,
                        push: Some(Push::Player(model::push::Player::Invited(i))),
                        mail: Some(Payload::Invite(mailbox)),
                    },
                )
            },
            StoreReply::Cancelled(i) => Ok(
                Outcome {
                    response: Response::Done,
                    push: Some(Push::Player(model::push::Player::Uninvited(i))),
                    mail: None,
                },
            ),
            StoreReply::Accepted(p, inviter) => {
                let mail = Payload::InviteOutcome {
                    inviter: mailbox::Proto { name: inviter.name, email: inviter.email },
                    invitee: self.user.make_proto(),
                    accepted: true,
                };
                Ok(
                    Outcome {
                        response: Response::Done,
                        push: Some(Push::Player(model::push::Player::Joined(p))),
                        mail: Some(mail),
                    },
                )
            },
            StoreReply::Rejected(i, inviter) => {
                let mail = Payload::InviteOutcome {
                    inviter: mailbox::Proto { name: inviter.name, email: inviter.email },
                    invitee: self.user.make_proto(),
                    accepted: false,
                };
                Ok(
                    Outcome {
                        response: Response::Done,
                        push: Some(Push::Player(model::push::Player::Uninvited(i))),
                        mail: Some(mail),
                    },
                )
            },
            StoreReply::History(hs) => Ok(
                Outcome {
                    response: Response::History(types::histories_to_tuples(hs)),
                    push: None,
                    mail: None,
                },
            ),
        }
    }
}

/// A successful call that changes the stored data tells every connected
/// user of exactly one change; one that only reads tells nobody. Mail goes
/// out exactly for an invitation and for the answer to one.
pub proof fn lemma_push_exactly_on_change<A: Access>(
    before: User<A>,
    after: User<A>,
    call: StoreCall,
    reply: StoreReply,
    o: Outcome,
)
    requires
        rating_free(call),
        answers(call, reply),
        completed(before, after, call, reply, o),
    ensures
        o.push is Some <==> mutates(call),
        o.mail is Some <==> mails(call),
        o.response == Response::Done <==> mutates(call),
{
}

/// Only a rename changes the user of a handler, and only its name.
pub proof fn lemma_user_changes_only_on_rename<A: Access>(
    before: User<A>,
    after: User<A>,
    call: StoreCall,
    reply: StoreReply,
    o: Outcome,
)
    requires
        rating_free(call),
        answers(call, reply),
        completed(before, after, call, reply, o),
    ensures
        !(call matches StoreCall::RenamePlayer { .. }) ==> after == before,
        after.spec_id() == before.spec_id(),
        after.spec_email() == before.spec_email(),
{
}

/// A request is refused as forbidden exactly when the access of the user
/// does not allow it: an invited user may only ask who it is, the version,
/// and accept or reject its invitation, and a registered player may not
/// accept or reject.
pub proof fn lemma_forbidden_exactly<A: Access>(h: Handler<A>, req: model::Request, step: Step)
    requires
        h.planned(req, step),
    ensures
        (step matches Step::Refuse(Error::Forbidden)) <==> forbidden(A::pending(), req),
{
}

/// Every request of an invited user other than the four it may make is
/// refused, before the store is asked anything.
pub proof fn lemma_pending_only_four<A: Access>(h: Handler<A>, req: model::Request, step: Step)
    requires
        h.planned(req, step),
        A::pending(),
        !(req matches model::Request::Version),
        !(req matches model::Request::Player(request::Player::Id)),
        !(req matches model::Request::Invite(request::Invite::Accept)),
        !(req matches model::Request::Invite(request::Invite::Reject)),
    ensures
        step matches Step::Refuse(Error::Forbidden),
{
}

/// A registered player's rename asks the store to rename that player to
/// the given name; once the store answers with the renamed player, the
/// answer is Done, everyone is told of exactly that rename, from the user's
/// old name to the stored one, no mail goes out, and the handler's user
/// now bears the stored name, with its id and email unchanged.
pub proof fn lemma_rename<A: Access>(
    h: Handler<A>,
    name: String,
    step: Step,
    after: User<A>,
    p: types::Player,
    o: Outcome,
)
    requires
        !A::pending(),
        h.planned(model::Request::Player(request::Player::Rename(name)), step),
    ensures
        step matches Step::Call(StoreCall::RenamePlayer { id, name: n }) && id == h.spec_user().spec_id()
            && n == name,
        step matches Step::Call(call) && completed(h.spec_user(), after, call, StoreReply::Renamed(p), o)
            ==> {
            &&& o.response == Response::Done
            &&& o.push matches Some(Push::Player(model::push::Player::Renamed(rn)))
            &&& rn.player == p.id && rn.old@ == h.spec_user().spec_name() && rn.new@ == p.name@
            &&& o.mail is None
            &&& after.spec_name() == p.name@
            &&& after.spec_id() == h.spec_user().spec_id()
            &&& after.spec_email() == h.spec_user().spec_email()
        },
{
}

/// A registered player's game requests reach the store as they were made:
/// a listing lists; a registration records the requesting fields in order,
/// the player first; an edit, a deletion among them, carries the game
/// unchanged, every field included; a history asks for that game's.
pub proof fn lemma_game_requests_unchanged<A: Access>(h: Handler<A>, req: request::Game, step: Step)
    requires
        !A::pending(),
        h.planned(model::Request::Game(req), step),
    ensures
        req matches request::Game::List ==> step matches Step::Call(StoreCall::ListGames),
        req matches request::Game::Update(g) ==> step == Step::Call(StoreCall::UpdateGame(g)),
        req matches request::Game::History(id) ==> step == Step::Call(StoreCall::GameHistory(id)),
        req matches request::Game::Register { player, opponent, score, opponent_score, challenge, millis }
            ==> step == Step::Call(
            StoreCall::RegisterGame {
                player_one: player,
                player_two: opponent,
                score_one: score,
                score_two: opponent_score,
                challenge,
                millis,
            },
        ),
{
}

/// An invited user's game requests are refused, whatever they ask.
pub proof fn lemma_game_requests_pending<A: Access>(h: Handler<A>, req: request::Game, step: Step)
    requires
        A::pending(),
        h.planned(model::Request::Game(req), step),
    ensures
        step matches Step::Refuse(Error::Forbidden),
{
}

/// The other requests reach the store with the user's own identity: a
/// registered player cancels its own invitations by the given id; an
/// invited user accepts or rejects its invitation by its own id and email;
/// asking who one is answers the user's id, marked pending for an invited
/// user only.
pub proof fn lemma_requests_carry_the_user<A: Access>(h: Handler<A>, req: model::Request, step: Step)
    requires
        h.planned(req, step),
    ensures
        req matches model::Request::Player(request::Player::Id) ==> (step matches Step::Reply(
            Response::User { id, pending },
        ) && id == h.spec_user().spec_id() && (pending == Some(true) <==> A::pending()) && (
        pending is None <==> !A::pending())),
        !A::pending() && (req matches model::Request::Invite(request::Invite::Cancel(c))) ==> (
        step matches Step::Call(StoreCall::CancelInvite { inviter, id }) && inviter
            == h.spec_user().spec_id() && req == model::Request::Invite(request::Invite::Cancel(id))),
        A::pending() && req == model::Request::Invite(request::Invite::Accept) ==> (
        step matches Step::Call(StoreCall::AcceptInvite { id, email }) && id
            == h.spec_user().spec_id() && email@ == h.spec_user().spec_email()),
        A::pending() && req == model::Request::Invite(request::Invite::Reject) ==> (
        step matches Step::Call(StoreCall::RejectInvite { id, email }) && id
            == h.spec_user().spec_id() && email@ == h.spec_user().spec_email()),
{
}

} // verus!
