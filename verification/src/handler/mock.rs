//! Mock data for a local ladder: the players of an invitation tree and
//! random games between them.
use vstd::prelude::*;

use super::model::Error;
use crate::store;
use crate::store::games::{challenge_limit_message, valid_game};
use crate::text::{self, join, lowercase, push_char};

verus! {

/// The email of a mock player: its name in lower case, spaces turned into
/// dots, at `email.com`.
pub open spec fn mock_email(name: Seq<char>) -> Seq<char> {
    lowercase(name).map_values(|c: char| if c == ' ' { '.' } else { c }) + "@email.com"@
}

/// The name and email of a mock player of the given name.
pub fn make_player(name: &str) -> (r: (String, String))
    ensures
        r.0@ == name@,
        r.1@ == mock_email(name@),
{
    let lower = text::to_lowercase(name);
    let n = lower.unicode_len();
    let mut dotted = String::new();
    let mut i: usize = 0;
    while i < n
        invariant
            n == lower@.len(),
            i <= n,
            dotted@ == lower@.take(i as int).map_values(
                |c: char|
                    if c == ' ' {
                        '.'
                    } else {
                        c
                    },
            ),
        decreases n - i,
    {
        let c = lower.as_str().get_char(i);
        push_char(&mut dotted, if c == ' ' { '.' } else { c });
        assert(lower@.take(i + 1) =~= lower@.take(i as int).push(c));
        i = i + 1;
    }
    assert(lower@.take(n as int) =~= lower@);
    let email = join(dotted.as_str(), "@email.com");
    (String::from_str(name), email)
}

/// The scores of a mock game from its random draws: the winner scores 12
/// in a tie break, else 11; the loser 10 in a tie break, else its draw; the
/// first player is the loser where `swap` is drawn.
pub open spec fn mock_scores(tie_break: bool, loser: u8, swap: bool) -> (u8, u8) {
    let w: u8 = if tie_break {
        12
    } else {
        11
    };
    let l: u8 = if tie_break {
        10
    } else {
        loser
    };
    if swap {
        (l, w)
    } else {
        (w, l)
    }
}

/// The scores of a mock game from its random draws; with the loser's draw
/// below 10, as the draws are made, they always make a valid game.
pub fn game_scores(tie_break: bool, loser: u8, swap: bool) -> (r: (u8, u8))
    ensures
        r == mock_scores(tie_break, loser, swap),
        loser < 10 ==> valid_game(0, 1, r.0 as int, r.1 as int),
{
    let winner: u8 = if tie_break {
        12
    } else {
        11
    };
    let loser: u8 = if winner == 12 {
        10
    } else {
        loser
    };
    if swap {
        (loser, winner)
    } else {
        (winner, loser)
    }
}

/// A mock challenge that broke the limit of one challenge a day is
/// registered again as an ordinary game.
pub fn retry_without_challenge(error: &Error, challenge: bool) -> (r: bool)
    ensures
        r == (challenge && (*error matches Error::Store(store::Error::InvalidValue(m)) && m@
            == challenge_limit_message()@)),
{
    match error {
        Error::Store(store::Error::InvalidValue(message)) => {
            challenge && text::equals(message, "Players cannot challenge each other more than once a day")
        },
        _ => false,
    }
}

/// One step of building the invitation tree. Users are numbered in the
/// order in which they join the tree: the first user is number zero, and
/// each invitee takes the next number.
#[derive(Debug, Clone, Copy, PartialEq, Eq, Structural)]
pub enum InviteStep {
    /// The user is looked up, and accepts its invitation if it still has
    /// one pending.
    Visit(usize),
    /// The user `inviter` invites the user `invitee`.
    Invite { inviter: usize, invitee: usize },
}

/// The invitations that `inviter` makes of the `count` users numbered from
/// `first` on.
pub open spec fn invites_of(inviter: usize, first: int, count: int) -> Seq<InviteStep> {
    Seq::new(
        count as nat,
        |i: int| InviteStep::Invite { inviter, invitee: (first + i) as usize },
    )
}

/// The steps that remain of building the tree, where the users before
/// `next` have joined it and those before `at` have been dealt with: each
/// user in turn, in the order in which they joined, is visited and invites
/// as many new users as its amount says, unless its amount is negative, in
/// which case it is left alone, still invited. The flag is false where the
/// users ran out before an inviter had made all its invitations.
pub open spec fn tree_steps(amounts: Seq<i64>, at: int, next: int) -> (Seq<InviteStep>, bool)
    decreases amounts.len() - at,
{
    if at < 0 || at >= next || at >= amounts.len() || next > amounts.len() {
        (Seq::empty(), true)
    } else if amounts[at] < 0 {
        tree_steps(amounts, at + 1, next)
    } else {
        let visit = seq![InviteStep::Visit(at as usize)];
        let left = amounts.len() - next;
        if amounts[at] > left {
            (visit + invites_of(at as usize, next, left), false)
        } else {
            let rest = tree_steps(amounts, at + 1, next + amounts[at]);
            (visit + invites_of(at as usize, next, amounts[at] as int) + rest.0, rest.1)
        }
    }
}

/// The number of invitations among `s`.
pub open spec fn invite_count(s: Seq<InviteStep>) -> nat
    decreases s.len(),
{
    if s.len() == 0 {
        0
    } else {
        invite_count(s.drop_last()) + if s.last() is Invite {
            1nat
        } else {
            0nat
        }
    }
}

/// The users join the tree one at a time, in order: each invitation gives
/// its invitee the next number and is made by a user visited before it,
/// and only users who have joined are visited.
#[verifier::opaque]
pub open spec fn joins_in_order(s: Seq<InviteStep>) -> bool {
    forall|i: int|
        0 <= i < s.len() ==> match #[trigger] s[i] {
            InviteStep::Invite { inviter, invitee } => invitee == invite_count(s.take(i)) + 1
                && exists|j: int| 0 <= j < i && s[j] == InviteStep::Visit(inviter),
            InviteStep::Visit(u) => u <= invite_count(s.take(i)),
        }
}

proof fn lemma_join_push(s: Seq<InviteStep>, x: InviteStep)
    requires
        joins_in_order(s),
        match x {
            InviteStep::Invite { inviter, invitee } => invitee == invite_count(s) + 1 && exists|j: int|
                0 <= j < s.len() && s[j] == InviteStep::Visit(inviter),
            InviteStep::Visit(u) => u <= invite_count(s),
        },
    ensures
        joins_in_order(s.push(x)),
        invite_count(s.push(x)) == invite_count(s) + if x is Invite {
            1nat
        } else {
            0nat
        },
{
    reveal(joins_in_order);
    let t = s.push(x);
    assert(t.drop_last() =~= s);
    assert(t.take(s.len() as int) =~= s);
    assert forall|i: int| 0 <= i < t.len() implies match #[trigger] t[i] {
        InviteStep::Invite { inviter, invitee } => invitee == invite_count(t.take(i)) + 1
            && exists|j: int| 0 <= j < i && t[j] == InviteStep::Visit(inviter),
        InviteStep::Visit(u) => u <= invite_count(t.take(i)),
    } by {
        if i < s.len() {
            assert(t.take(i) =~= s.take(i));
            assert(t[i] == s[i]);
            match s[i] {
                InviteStep::Invite { inviter, invitee } => {
                    let j = choose|j: int| 0 <= j < i && s[j] == InviteStep::Visit(inviter);
                    assert(t[j] == s[j]);
                },
                InviteStep::Visit(_) => {},
            }
        } else {
            match x {
                InviteStep::Invite { inviter, invitee } => {
                    let j = choose|j: int| 0 <= j < s.len() && s[j] == InviteStep::Visit(inviter);
                    assert(t[j] == s[j]);
                },
                InviteStep::Visit(_) => {},
            }
        }
    }
}

/// The steps that build the invitation tree from the first user, where
/// `amounts[i]` is how many users the user numbered `i` invites, and a
/// negative amount leaves that user with its invitation pending; the flag
/// says whether there were users enough for every invitation.
pub fn invitation_plan(amounts: &[i64]) -> (r: (Vec<InviteStep>, bool))
    ensures
        (r.0@, r.1) == tree_steps(amounts@, 0, 1),
        joins_in_order(r.0@),
        invite_count(r.0@) < amounts@.len() || amounts@.len() == 0,
{
    let n = amounts.len();
    let mut steps: Vec<InviteStep> = Vec::new();
    assert(joins_in_order(steps@)) by {
        reveal(joins_in_order);
    }
    if n == 0 {
        return (steps, true);
    }
    let mut at: usize = 0;
    let mut next: usize = 1;
    while at < next
        invariant
            n == amounts@.len(),
            at <= next <= n,
            steps@ + tree_steps(amounts@, at as int, next as int).0 == tree_steps(amounts@, 0, 1).0,
            tree_steps(amounts@, at as int, next as int).1 == tree_steps(amounts@, 0, 1).1,
            joins_in_order(steps@),
            invite_count(steps@) == next - 1,
        decreases n - at,
    {
        let amount = amounts[at];
        if amount < 0 {
            at = at + 1;
        } else {
            let ghost before = steps@;
            let ghost rest = tree_steps(amounts@, at as int, next as int);
            proof {
                lemma_join_push(steps@, InviteStep::Visit(at));
            }
            steps.push(InviteStep::Visit(at));
            let left = n - next;
            let ran_out = (amount as u64) > (left as u64);
            let count: usize = if ran_out {
                left
            } else {
                amount as usize
            };
            let mut i: usize = 0;
            while i < count
                invariant
                    n == amounts@.len(),
                    at < next <= n,
                    count <= n - next,
                    i <= count,
                    steps@ == before + seq![InviteStep::Visit(at)] + invites_of(
                        at,
                        next as int,
                        i as int,
                    ),
                    joins_in_order(steps@),
                    invite_count(steps@) == next - 1 + i,
                    steps@[before.len() as int] == InviteStep::Visit(at),
                    before.len() < steps@.len(),
                decreases count - i,
            {
                proof {
                    lemma_join_push(steps@, InviteStep::Invite { inviter: at, invitee: (next + i) as usize });
                }
                steps.push(InviteStep::Invite { inviter: at, invitee: next + i });
                assert(invites_of(at, next as int, i + 1) =~= invites_of(at, next as int, i as int).push(
                    InviteStep::Invite { inviter: at, invitee: (next + i) as usize },
                ));
                i = i + 1;
            }
            if ran_out {
                assert(steps@ =~= before + rest.0);
                return (steps, false);
            }
            let ghost tail = tree_steps(amounts@, at + 1, next + count);
            assert(rest.0 =~= seq![InviteStep::Visit(at)] + invites_of(at, next as int, count as int)
                + tail.0);
            assert(steps@ + tail.0 =~= before + rest.0);
            next = next + count;
            at = at + 1;
        }
    }
    assert(tree_steps(amounts@, at as int, next as int).0 =~= Seq::<InviteStep>::empty());
    assert(steps@ =~= steps@ + tree_steps(amounts@, at as int, next as int).0);
    (steps, true)
}

/// The sum of `s`.
pub open spec fn total(s: Seq<i64>) -> int
    decreases s.len(),
{
    if s.len() == 0 {
        0
    } else {
        total(s.drop_last()) + s.last()
    }
}

/// The times of the mock games, oldest first: going back from `initial`
/// by each gap in turn, and then put in the order of time.
pub fn mock_times(initial: i64, gaps: &[i64]) -> (r: Vec<i64>)
    requires
        forall|k: int|
            0 <= k <= gaps@.len() ==> i64::MIN <= initial - total(#[trigger] gaps@.take(k))
                <= i64::MAX,
    ensures
        r@.len() == gaps@.len(),
        forall|k: int|
            0 <= k < r@.len() ==> r@[k] == initial - total(#[trigger] gaps@.take(gaps@.len() - k)),
{
    let n = gaps.len();
    let mut back: Vec<i64> = Vec::new();
    let mut acc: i64 = initial;
    let mut i: usize = 0;
    while i < n
        invariant
            n == gaps@.len(),
            i <= n,
            forall|k: int|
                0 <= k <= n ==> i64::MIN <= initial - total(#[trigger] gaps@.take(k)) <= i64::MAX,
            acc == initial - total(gaps@.take(i as int)),
            back@.len() == i,
            forall|j: int| 0 <= j < i ==> back@[j] == initial - total(#[trigger] gaps@.take(j + 1)),
        decreases n - i,
    {
        assert(gaps@.take(i + 1).drop_last() =~= gaps@.take(i as int));
        assert(i64::MIN <= initial - total(gaps@.take(i + 1)) <= i64::MAX);
        acc = acc - gaps[i];
        back.push(acc);
        i = i + 1;
    }
    let mut r: Vec<i64> = Vec::new();
    let mut k: usize = 0;
    while k < n
        invariant
            n == gaps@.len(),
            back@.len() == n,
            k <= n,
            forall|j: int| 0 <= j < n ==> back@[j] == initial - total(#[trigger] gaps@.take(j + 1)),
            r@.len() == k,
            forall|j: int| 0 <= j < k ==> r@[j] == initial - total(#[trigger] gaps@.take(n - j)),
        decreases n - k,
    {
        let v = back[n - 1 - k];
        assert(back@[n - 1 - k] == initial - total(gaps@.take((n - 1 - k) + 1)));
        r.push(v);
        k = k + 1;
    }
    r
}

} // verus!
