//! The running table of each player's latest rating, kept ordered by player
//! while the games are replayed in time order.
use vstd::prelude::*;

use crate::types::Id;

verus! {

/// Entries strictly ordered by player: one entry per player.
pub open spec fn ordered<V>(s: Seq<(Id, V)>) -> bool {
    forall|i: int, j: int| 0 <= i < j < s.len() ==> #[trigger] s[i].0 < #[trigger] s[j].0
}

/// Some entry of `s` belongs to `player`.
pub open spec fn holds<V>(s: Seq<(Id, V)>, player: Id) -> bool {
    exists|i: int| 0 <= i < s.len() && #[trigger] s[i].0 == player
}

/// `r` is what a binary search for `player` in the ordered `s` answers:
/// the index of its entry, or the index at which an entry for it belongs.
pub open spec fn is_search_result<V>(s: Seq<(Id, V)>, player: Id, r: Result<usize, usize>) -> bool {
    match r {
        Ok(i) => i < s.len() && s[i as int].0 == player,
        Err(i) => {
            &&& i <= s.len()
            &&& forall|j: int| 0 <= j < i ==> #[trigger] s[j].0 < player
            &&& forall|j: int| i <= j < s.len() ==> #[trigger] s[j].0 > player
        },
    }
}

/// `s` with the entry of `player` set to `value`, at the place that the
/// search result `r` gives.
pub open spec fn upsert_at<V>(s: Seq<(Id, V)>, r: Result<usize, usize>, player: Id, value: V) -> Seq<
    (Id, V),
> {
    match r {
        Ok(i) => s.update(i as int, (player, value)),
        Err(i) => s.insert(i as int, (player, value)),
    }
}

/// The search result for `other` once an entry for `player` has been placed
/// by the search result `r`: unchanged, or one further when a new entry was
/// inserted in front of it.
pub open spec fn shifted(r: Result<usize, usize>, player: Id, other: Id, q: Result<usize, usize>) -> Result<
    usize,
    usize,
> {
    match r {
        Ok(_) => q,
        Err(_) => if player < other {
            match q {
                Ok(i) => Ok((i + 1) as usize),
                Err(i) => Err((i + 1) as usize),
            }
        } else {
            q
        },
    }
}

/// Placing one entry keeps the table ordered, sets that player's value,
/// and keeps every other entry.
pub proof fn lemma_upsert<V>(s: Seq<(Id, V)>, r: Result<usize, usize>, player: Id, value: V)
    requires
        ordered(s),
        is_search_result(s, player, r),
    ensures
        ordered(upsert_at(s, r, player, value)),
        forall|k: Id|
            #[trigger] holds(upsert_at(s, r, player, value), k) <==> (k == player || holds(s, k)),
        forall|i: int|
            0 <= i < upsert_at(s, r, player, value).len() && upsert_at(s, r, player, value)[i].0
                == player ==> #[trigger] upsert_at(s, r, player, value)[i] == (player, value),
        forall|i: int|
            0 <= i < upsert_at(s, r, player, value).len() && upsert_at(s, r, player, value)[i].0
                != player ==> s.contains(#[trigger] upsert_at(s, r, player, value)[i]),
        forall|j: int|
            0 <= j < s.len() && s[j].0 != player ==> upsert_at(s, r, player, value).contains(
                #[trigger] s[j],
            ),
{
    let t = upsert_at(s, r, player, value);
    match r {
        Ok(i) => {
            assert forall|k: Id| holds(t, k) <==> (k == player || holds(s, k)) by {
                if holds(s, k) {
                    let m = choose|m: int| 0 <= m < s.len() && #[trigger] s[m].0 == k;
                    assert(t[m].0 == k);
                }
                if k == player {
                    assert(t[i as int].0 == k);
                }
                if holds(t, k) {
                    let m = choose|m: int| 0 <= m < t.len() && #[trigger] t[m].0 == k;
                    if m != i {
                        assert(s[m].0 == k);
                    }
                }
            }
            assert forall|i2: int| 0 <= i2 < t.len() && t[i2].0 != player implies s.contains(
                #[trigger] t[i2],
            ) by {
                assert(t[i2] == s[i2]);
            }
            assert forall|j: int| 0 <= j < s.len() && s[j].0 != player implies t.contains(
                #[trigger] s[j],
            ) by {
                assert(t[j] == s[j]);
            }
        },
        Err(i) => {
            assert(forall|m: int| 0 <= m < i ==> t[m] == s[m]);
            assert(forall|m: int| i < m < t.len() ==> t[m] == s[m - 1]);
            assert(t[i as int] == (player, value));
            assert forall|a: int, b: int| 0 <= a < b < t.len() implies #[trigger] t[a].0
                < #[trigger] t[b].0 by {
                if b < i {
                } else if b == i {
                    assert(t[a] == s[a]);
                } else if a < i {
                    assert(t[b] == s[b - 1]);
                } else if a == i {
                    assert(t[b] == s[b - 1]);
                } else {
                    assert(t[a] == s[a - 1]);
                    assert(t[b] == s[b - 1]);
                }
            }
            assert forall|k: Id| holds(t, k) <==> (k == player || holds(s, k)) by {
                if holds(s, k) {
                    let m = choose|m: int| 0 <= m < s.len() && #[trigger] s[m].0 == k;
                    if m < i {
                        assert(t[m].0 == k);
                    } else {
                        assert(t[m + 1].0 == k);
                    }
                }
                if k == player {
                    assert(t[i as int].0 == k);
                }
                if holds(t, k) {
                    let m = choose|m: int| 0 <= m < t.len() && #[trigger] t[m].0 == k;
                    if m < i {
                        assert(s[m].0 == k);
                    } else if m > i {
                        assert(s[m - 1].0 == k);
                    }
                }
            }
            assert forall|i2: int| 0 <= i2 < t.len() && t[i2].0 != player implies s.contains(
                #[trigger] t[i2],
            ) by {
                if i2 < i {
                    assert(t[i2] == s[i2]);
                } else {
                    assert(i2 != i);
                    assert(t[i2] == s[i2 - 1]);
                }
            }
            assert forall|j: int| 0 <= j < s.len() && s[j].0 != player implies t.contains(
                #[trigger] s[j],
            ) by {
                if j < i {
                    assert(t[j] == s[j]);
                } else {
                    assert(t[j + 1] == s[j]);
                }
            }
        },
    }
}

/// After the entry of `player` was placed by the search result `r`, the
/// shifted search result for a different player `other` is still correct.
pub proof fn lemma_shifted<V>(
    s: Seq<(Id, V)>,
    r: Result<usize, usize>,
    player: Id,
    value: V,
    other: Id,
    q: Result<usize, usize>,
)
    requires
        ordered(s),
        player != other,
        is_search_result(s, player, r),
        is_search_result(s, other, q),
        r is Err ==> s.len() < usize::MAX,
    ensures
        is_search_result(upsert_at(s, r, player, value), other, shifted(r, player, other, q)),
{
    let t = upsert_at(s, r, player, value);
    match r {
        Ok(i) => {
            assert(shifted(r, player, other, q) == q);
            assert(t.len() == s.len());
            match q {
                Ok(k) => {
                    assert(k != i);
                    assert(t[k as int] == s[k as int]);
                    assert(is_search_result(t, other, q));
                },
                Err(k) => {
                    assert forall|j: int| 0 <= j < k implies #[trigger] t[j].0 < other by {
                        assert(t[j].0 == s[j].0);
                    }
                    assert forall|j: int| k <= j < t.len() implies #[trigger] t[j].0 > other by {
                        assert(t[j].0 == s[j].0);
                    }
                    assert(is_search_result(t, other, q));
                },
            }
        },
        Err(i) => {
            assert(forall|m: int| 0 <= m < i ==> t[m] == s[m]);
            assert(forall|m: int| i < m < t.len() ==> t[m] == s[m - 1]);
            assert(t[i as int] == (player, value));
            if player < other {
                match q {
                    Ok(k) => {
                        if k < i {
                            assert(s[k as int].0 < player);
                        }
                        assert(k >= i);
                        assert(t[k + 1] == s[k as int]);
                    },
                    Err(k) => {
                        if k < i {
                            assert(s[k as int].0 < player);
                            assert(s[k as int].0 > other);
                        }
                        assert(k >= i);
                        assert forall|j: int| 0 <= j < k + 1 implies #[trigger] t[j].0 < other by {
                            if j > i {
                                assert(t[j] == s[j - 1]);
                            }
                        }
                        assert forall|j: int| k + 1 <= j < t.len() implies #[trigger] t[j].0
                            > other by {
                            assert(t[j] == s[j - 1]);
                        }
                    },
                }
            } else {
                match q {
                    Ok(k) => {
                        if k >= i {
                            assert(s[k as int].0 > player);
                        }
                        assert(k < i);
                        assert(t[k as int] == s[k as int]);
                    },
                    Err(k) => {
                        if k > i {
                            assert(s[i as int].0 > player);
                            assert(s[i as int].0 < other);
                        }
                        assert(k <= i);
                        assert forall|j: int| 0 <= j < k implies #[trigger] t[j].0 < other by {
                            assert(t[j] == s[j]);
                        }
                        assert forall|j: int| k <= j < t.len() implies #[trigger] t[j].0
                            > other by {
                            if j < i {
                                assert(t[j] == s[j]);
                            } else if j > i {
                                assert(t[j] == s[j - 1]);
                            }
                        }
                    },
                }
            }
        },
    }
}

/// Each player's latest rating value, one entry per player, ordered by
/// player.
pub struct RatingTable<V> {
    entries: Vec<(Id, V)>,
}

impl<V> View for RatingTable<V> {
    type V = Seq<(Id, V)>;

    closed spec fn view(&self) -> Seq<(Id, V)> {
        self.entries@
    }
}

impl<V> RatingTable<V> {
    /// The table is ordered by player, one entry per player.
    pub open spec fn wf(&self) -> bool {
        ordered(self@)
    }

    /// An empty table.
    pub fn new() -> (r: Self)
        ensures
            r.wf(),
            r@ == Seq::<(Id, V)>::empty(),
    {
        RatingTable { entries: Vec::new() }
    }

    /// A table of the given entries, or `None` where they are not strictly
    /// ordered by player.
    pub fn from_sorted(entries: Vec<(Id, V)>) -> (r: Option<Self>)
        ensures
            r is Some <==> ordered(entries@),
            r matches Some(t) ==> t.wf() && t@ == entries@,
    {
        let n = entries.len();
        let mut i: usize = 1;
        if n == 0 {
            return Some(RatingTable { entries });
        }
        while i < n
            invariant
                n == entries@.len(),
                1 <= i <= n,
                forall|a: int, b: int|
                    0 <= a < b < i ==> #[trigger] entries@[a].0 < #[trigger] entries@[b].0,
            decreases n - i,
        {
            if entries[i - 1].0 >= entries[i].0 {
                return None;
            }
            assert forall|a: int, b: int| 0 <= a < b < i + 1 implies #[trigger] entries@[a].0
                < #[trigger] entries@[b].0 by {
                if b == i && a < i - 1 {
                    assert(entries@[a].0 < entries@[i - 1].0);
                }
            }
            i = i + 1;
        }
        Some(RatingTable { entries })
    }

    /// The number of players in the table.
    pub fn len(&self) -> (r: usize)
        ensures
            r == self@.len(),
    {
        self.entries.len()
    }

    /// The value stored at index `i`.
    pub fn value_at(&self, i: usize) -> (r: &V)
        requires
            i < self@.len(),
        ensures
            *r == self@[i as int].1,
    {
        &self.entries[i].1
    }

    /// The player stored at index `i`.
    pub fn player_at(&self, i: usize) -> (r: Id)
        requires
            i < self@.len(),
        ensures
            r == self@[i as int].0,
    {
        self.entries[i].0
    }

    /// Binary search for the entry of `player`: `Ok` with its index, or
    /// `Err` with the index at which it belongs.
    pub fn search(&self, player: Id) -> (r: Result<usize, usize>)
        requires
            self.wf(),
        ensures
            is_search_result(self@, player, r),
    {
        let mut lo: usize = 0;
        let mut hi: usize = self.entries.len();
        while lo < hi
            invariant
                ordered(self@),
                self@ == self.entries@,
                lo <= hi <= self@.len(),
                forall|j: int| 0 <= j < lo ==> #[trigger] self@[j].0 < player,
                forall|j: int| hi <= j < self@.len() ==> #[trigger] self@[j].0 > player,
            decreases hi - lo,
        {
            let mid = lo + (hi - lo) / 2;
            let key = self.entries[mid].0;
            if key == player {
                return Ok(mid);
            } else if key < player {
                assert forall|j: int| 0 <= j < mid + 1 implies #[trigger] self@[j].0 < player by {
                    if j < mid {
                        assert(self@[j].0 < self@[mid as int].0);
                    }
                }
                lo = mid + 1;
            } else {
                assert forall|j: int| mid <= j < self@.len() implies #[trigger] self@[j].0
                    > player by {
                    if j > mid {
                        assert(self@[mid as int].0 < self@[j].0);
                    }
                }
                hi = mid;
            }
        }
        Err(lo)
    }

    /// Records the outcome of a game between two different players: the
    /// entry of `one` becomes `value_one` and that of `two` becomes
    /// `value_two`, where `at_one` and `at_two` are the searches for both
    /// made before either entry changed. A player without an entry gets a
    /// new one at the place the search gave; when `one` was new and ordered
    /// before `two`, the place of `two` moves one further.
    pub fn record_pair(
        &mut self,
        one: Id,
        at_one: Result<usize, usize>,
        value_one: V,
        two: Id,
        at_two: Result<usize, usize>,
        value_two: V,
    )
        requires
            old(self).wf(),
            one != two,
            is_search_result(old(self)@, one, at_one),
            is_search_result(old(self)@, two, at_two),
        ensures
            final(self).wf(),
            final(self)@ == upsert_at(
                upsert_at(old(self)@, at_one, one, value_one),
                shifted(at_one, one, two, at_two),
                two,
                value_two,
            ),
            forall|k: Id| holds(final(self)@, k) <==> (k == one || k == two || holds(old(self)@, k)),
            forall|i: int|
                0 <= i < final(self)@.len() && final(self)@[i].0 == two ==> #[trigger] final(self)@[i] == (two, value_two),
            forall|i: int|
                0 <= i < final(self)@.len() && final(self)@[i].0 == one ==> #[trigger] final(self)@[i] == (one, value_one),
            forall|i: int|
                0 <= i < final(self)@.len() && final(self)@[i].0 != one && final(self)@[i].0
                    != two ==> old(self)@.contains(#[trigger] final(self)@[i]),
            forall|j: int|
                0 <= j < old(self)@.len() && old(self)@[j].0 != one && old(self)@[j].0 != two
                    ==> final(self)@.contains(#[trigger] old(self)@[j]),
    {
        let ghost s0 = self@;
        let ghost v1 = value_one;
        let ghost v2 = value_two;
        proof {
            lemma_upsert(s0, at_one, one, v1);
        }
        let at_two = match at_one {
            Ok(i) => {
                proof {
                    lemma_shifted(s0, at_one, one, v1, two, at_two);
                }
                self.entries.set(i, (one, value_one));
                at_two
            },
            Err(i) => {
                self.entries.insert(i, (one, value_one));
                // The grown table's length fits a `usize`, so the old one
                // was below its largest value.
                let grown: usize = self.entries.len();
                assert(s0.len() < grown);
                proof {
                    lemma_shifted(s0, at_one, one, v1, two, at_two);
                }
                if one < two {
                    match at_two {
                        Ok(k) => Ok(k + 1),
                        Err(k) => Err(k + 1),
                    }
                } else {
                    at_two
                }
            },
        };
        let ghost s1 = self@;
        assert(s1 == upsert_at(s0, at_one, one, v1));
        proof {
            lemma_upsert(s1, at_two, two, v2);
        }
        match at_two {
            Ok(k) => {
                self.entries.set(k, (two, value_two));
            },
            Err(k) => {
                self.entries.insert(k, (two, value_two));
            },
        }
        let ghost s2 = self@;
        assert(s2 == upsert_at(s1, at_two, two, v2));
        assert forall|k: Id| holds(s2, k) <==> (k == one || k == two || holds(s0, k)) by {
            assert(holds(s2, k) <==> (k == two || holds(s1, k)));
            assert(holds(s1, k) <==> (k == one || holds(s0, k)));
        }
        assert forall|i: int| 0 <= i < s2.len() && s2[i].0 == one implies #[trigger] s2[i] == (
            one,
            v1,
        ) by {
            assert(s1.contains(s2[i]));
            let m = choose|m: int| 0 <= m < s1.len() && s1[m] == s2[i];
        }
        assert forall|i: int| 0 <= i < s2.len() && s2[i].0 != one && s2[i].0 != two implies s0.contains(
            #[trigger] s2[i],
        ) by {
            assert(s1.contains(s2[i]));
            let m = choose|m: int| 0 <= m < s1.len() && s1[m] == s2[i];
            assert(s1[m].0 != one);
        }
        assert forall|j: int| 0 <= j < s0.len() && s0[j].0 != one && s0[j].0 != two implies s2.contains(
            #[trigger] s0[j],
        ) by {
            assert(s1.contains(s0[j]));
            let m = choose|m: int| 0 <= m < s1.len() && s1[m] == s0[j];
            assert(s1[m].0 != two);
        }
    }
}

} // verus!
