//! Matchmaking: the waiting set of players and the pairing step the
//! background loop runs every tick.
//!
//! Waiting entries are ordered primarily by rating and secondarily by join
//! time, so equally rated players pair first-in-first-out; the player id
//! breaks the remaining tie, making the order total. A tick removes the two
//! lowest entries; when creating the match record fails, the driver puts
//! both entries back with their original scores, so no player is lost.

use vstd::prelude::*;

verus! {

/// One waiting player: id, pairing rating, and the join timestamp in
/// milliseconds.
#[derive(Debug, Clone, Copy, PartialEq, Eq, Structural)]
pub struct QueueEntry {
    pub player_id: u128,
    pub rating: i32,
    pub joined_ms: u64,
}

/// The `match found` notice published to each paired player, naming the
/// created match and the opponent.
#[derive(Debug, Clone, Copy, PartialEq, Eq, Structural)]
pub struct MatchFound {
    pub game_id: u128,
    pub opponent_id: u128,
}

/// Body of the queue join and leave endpoints.
#[derive(Debug, Clone, Copy, PartialEq, Eq, Structural)]
pub struct QueueRequest {
    pub player_id: u128,
    /// Current rating, used for the pairing score.
    pub elo_rating: i32,
}

/// Strict pairing order: lower rating first, then earlier join, then the
/// smaller id. Total on entries with distinct ids.
pub open spec fn entry_lt(a: QueueEntry, b: QueueEntry) -> bool {
    ||| a.rating < b.rating
    ||| (a.rating == b.rating && a.joined_ms < b.joined_ms)
    ||| (a.rating == b.rating && a.joined_ms == b.joined_ms && a.player_id < b.player_id)
}

/// Index of the first entry no later entry beats: the scan keeps the
/// earliest minimum.
pub open spec fn min_index(s: Seq<QueueEntry>) -> int
    decreases s.len(),
{
    if s.len() <= 1 {
        0
    } else {
        let m = min_index(s.drop_last());
        if entry_lt(s.last(), s[m]) {
            s.len() - 1
        } else {
            m
        }
    }
}

/// The minimum scan lands in range on a minimal entry.
pub proof fn lemma_min_index_minimal(s: Seq<QueueEntry>)
    requires
        s.len() > 0,
    ensures
        0 <= min_index(s) < s.len(),
        forall|k: int| 0 <= k < s.len() ==> !entry_lt(s[k], s[min_index(s)]),
    decreases s.len(),
{
    if s.len() > 1 {
        lemma_min_index_minimal(s.drop_last());
        assert forall|k: int| 0 <= k < s.len() implies !entry_lt(s[k], s[min_index(s)]) by {
            let m = min_index(s.drop_last());
            assert(0 <= m < s.len() - 1);
            assert(s.drop_last()[m] == s[m]);
            if k < s.len() - 1 {
                assert(s.drop_last()[k] == s[k]);
                assert(!entry_lt(s[k], s[m]));
            }
        }
    }
}

/// First index of the player in the waiting list, or -1.
pub open spec fn player_index(s: Seq<QueueEntry>, pid: u128) -> int
    decreases s.len(),
{
    if s.len() == 0 {
        -1
    } else if s[0].player_id == pid {
        0
    } else {
        let r = player_index(s.drop_first(), pid);
        if r < 0 {
            -1
        } else {
            r + 1
        }
    }
}

proof fn lemma_player_index_of(s: Seq<QueueEntry>, pid: u128, i: int)
    requires
        0 <= i < s.len(),
        s[i].player_id == pid,
        forall|j: int| 0 <= j < i ==> s[j].player_id != pid,
    ensures
        player_index(s, pid) == i,
    decreases s.len(),
{
    if i > 0 {
        assert forall|j: int| 0 <= j < i - 1 implies s.drop_first()[j].player_id != pid by {
            assert(s.drop_first()[j] == s[j + 1]);
        }
        assert(s.drop_first()[i - 1] == s[i]);
        lemma_player_index_of(s.drop_first(), pid, i - 1);
    }
}

proof fn lemma_player_index_none(s: Seq<QueueEntry>, pid: u128)
    requires
        forall|j: int| 0 <= j < s.len() ==> s[j].player_id != pid,
    ensures
        player_index(s, pid) == -1,
    decreases s.len(),
{
    if s.len() > 0 {
        assert forall|j: int| 0 <= j < s.len() - 1 implies s.drop_first()[j].player_id != pid by {
            assert(s.drop_first()[j] == s[j + 1]);
        }
        lemma_player_index_none(s.drop_first(), pid);
    }
}

/// The waiting set, one entry per player.
pub struct MatchQueue {
    entries: Vec<QueueEntry>,
}

impl MatchQueue {
    /// The waiting entries, in insertion order.
    pub closed spec fn waiting(self) -> Seq<QueueEntry> {
        self.entries@
    }

    /// Each player waits at most once.
    pub closed spec fn wf(self) -> bool {
        forall|x: int, y: int|
            0 <= x < y < self.entries@.len() ==> self.entries@[x].player_id
                != self.entries@[y].player_id
    }

    pub fn new() -> (q: MatchQueue)
        ensures
            q.wf(),
            q.waiting() == Seq::<QueueEntry>::empty(),
    {
        MatchQueue { entries: Vec::new() }
    }

    pub fn len(&self) -> (n: usize)
        ensures
            n == self.waiting().len(),
    {
        self.entries.len()
    }

    /// First position of the player in the waiting list, or none.
    fn position_of(&self, player_id: u128) -> (r: Option<usize>)
        ensures
            match r {
                Option::Some(i) => i < self.waiting().len() && player_index(
                    self.waiting(),
                    player_id,
                ) == i as int,
                Option::None => player_index(self.waiting(), player_id) == -1,
            },
    {
        let n = self.entries.len();
        let mut i: usize = 0;
        while i < n
            invariant
                i <= n,
                n == self.entries@.len(),
                forall|j: int| 0 <= j < i ==> self.entries@[j].player_id != player_id,
            decreases n - i,
        {
            if self.entries[i].player_id == player_id {
                proof {
                    lemma_player_index_of(self.entries@, player_id, i as int);
                }
                return Option::Some(i);
            }
            i = i + 1;
        }
        proof {
            lemma_player_index_none(self.entries@, player_id);
        }
        Option::None
    }

    /// Joins the queue, replacing any earlier entry of the same player with
    /// the fresh score — so joining twice is the same as joining once with
    /// the newer score.
    pub fn join_queue(&mut self, player_id: u128, rating: i32, joined_ms: u64)
        requires
            old(self).wf(),
        ensures
            final(self).wf(),
            ({
                let e = (QueueEntry { player_id, rating, joined_ms });
                let k = player_index(old(self).waiting(), player_id);
                if k >= 0 {
                    final(self).waiting() == old(self).waiting().remove(k).push(e)
                } else {
                    final(self).waiting() == old(self).waiting().push(e)
                }
            }),
    {
        let ghost pre = self.entries@;
        let entry = QueueEntry { player_id, rating, joined_ms };
        if let Option::Some(i) = self.position_of(player_id) {
            self.entries.remove(i);
            proof {
                pre.remove_ensures(i as int);
                lemma_removed_player_unique(pre, i as int);
            }
        }
        proof {
            assert forall|j: int|
                0 <= j < self.entries@.len() implies self.entries@[j].player_id != player_id by {
                lemma_player_index_keeps(pre, self.entries@, player_id, j);
            }
        }
        self.entries.push(entry);
        proof {
            assert forall|x: int, y: int|
                0 <= x < y < self.entries@.len() implies self.entries@[x].player_id
                    != self.entries@[y].player_id by {}
        }
    }

    /// Leaves the queue; a player not waiting is a no-op, so leaving is
    /// idempotent.
    pub fn leave_queue(&mut self, player_id: u128)
        requires
            old(self).wf(),
        ensures
            final(self).wf(),
            ({
                let k = player_index(old(self).waiting(), player_id);
                if k >= 0 {
                    final(self).waiting() == old(self).waiting().remove(k)
                } else {
                    final(self).waiting() == old(self).waiting()
                }
            }),
    {
        let ghost pre = self.entries@;
        if let Option::Some(i) = self.position_of(player_id) {
            self.entries.remove(i);
            proof {
                pre.remove_ensures(i as int);
                lemma_removed_player_unique(pre, i as int);
            }
        }
    }

    /// Position of the earliest minimal entry under the pairing order.
    fn min_position(&self) -> (i: usize)
        requires
            self.waiting().len() > 0,
        ensures
            i as int == min_index(self.waiting()),
            i < self.waiting().len(),
    {
        let n = self.entries.len();
        let mut best: usize = 0;
        let mut i: usize = 1;
        while i < n
            invariant
                1 <= i <= n,
                n == self.entries@.len(),
                n > 0,
                best < i,
                best as int == min_index(self.entries@.subrange(0, i as int)),
            decreases n - i,
        {
            proof {
                assert(self.entries@.subrange(0, i + 1).drop_last() =~= self.entries@.subrange(
                    0,
                    i as int,
                ));
                assert(self.entries@.subrange(0, i + 1).last() == self.entries@[i as int]);
            }
            let e = self.entries[i];
            let b = self.entries[best];
            let less = e.rating < b.rating || (e.rating == b.rating && (e.joined_ms < b.joined_ms
                || (e.joined_ms == b.joined_ms && e.player_id < b.player_id)));
            if less {
                best = i;
            }
            i = i + 1;
        }
        proof {
            assert(self.entries@.subrange(0, n as int) =~= self.entries@);
        }
        best
    }

    /// One pairing attempt: with at least two players waiting, removes and
    /// returns the two lowest entries under the pairing order (the lowest
    /// first); with fewer, leaves the queue untouched. A failed match
    /// creation is undone by two `join_queue` calls with the returned
    /// entries' own fields.
    pub fn pop_pair(&mut self) -> (r: Option<(QueueEntry, QueueEntry)>)
        requires
            old(self).wf(),
        ensures
            final(self).wf(),
            old(self).waiting().len() < 2 ==> r.is_none() && *final(self) == *old(self),
            old(self).waiting().len() >= 2 ==> ({
                let s0 = old(self).waiting();
                let i = min_index(s0);
                let s1 = s0.remove(i);
                let j = min_index(s1);
                &&& r == Option::Some((s0[i], s1[j]))
                &&& final(self).waiting() == s1.remove(j)
                &&& forall|k: int| 0 <= k < s0.len() ==> !entry_lt(s0[k], s0[i])
                &&& forall|k: int| 0 <= k < s1.len() ==> !entry_lt(s1[k], s1[j])
            }),
    {
        if self.entries.len() < 2 {
            return Option::None;
        }
        let ghost s0 = self.entries@;
        let i = self.min_position();
        let a = self.entries.remove(i);
        proof {
            s0.remove_ensures(i as int);
            lemma_removed_player_unique(s0, i as int);
            lemma_min_index_minimal(s0);
        }
        let ghost s1 = self.entries@;
        let j = self.min_position();
        let b = self.entries.remove(j);
        proof {
            s1.remove_ensures(j as int);
            lemma_removed_player_unique(s1, j as int);
            lemma_min_index_minimal(s1);
        }
        Option::Some((a, b))
    }
}

/// No player is lost by a failed pairing: popping the two lowest waiting
/// entries and putting both back with their original fields yields the same
/// waiting entries — as a multiset; the internal order may differ.
pub proof fn lemma_failed_pairing_loses_no_player(s0: Seq<QueueEntry>)
    requires
        s0.len() >= 2,
    ensures
        ({
            let i = min_index(s0);
            let s1 = s0.remove(i);
            let j = min_index(s1);
            s1.remove(j).push(s0[i]).push(s1[j]).to_multiset() == s0.to_multiset()
        }),
{
    broadcast use vstd::seq_lib::group_to_multiset_ensures;

    let i = min_index(s0);
    lemma_min_index_minimal(s0);
    let s1 = s0.remove(i);
    let j = min_index(s1);
    lemma_min_index_minimal(s1);
    let s2 = s1.remove(j);
    assert(s1.to_multiset() =~= s0.to_multiset().remove(s0[i]));
    assert(s2.to_multiset() =~= s1.to_multiset().remove(s1[j]));
    assert(s2.push(s0[i]).to_multiset() =~= s2.to_multiset().insert(s0[i]));
    assert(s2.push(s0[i]).push(s1[j]).to_multiset() =~= s2.push(s0[i]).to_multiset().insert(
        s1[j],
    ));
    assert(s1.to_multiset().contains(s1[j]));
    assert(s0.to_multiset().contains(s0[i]));
    assert(s2.push(s0[i]).push(s1[j]).to_multiset() =~= s0.to_multiset());
}

/// Removing one entry keeps the one-entry-per-player property.
proof fn lemma_removed_player_unique(pre: Seq<QueueEntry>, i: int)
    requires
        0 <= i < pre.len(),
        forall|x: int, y: int|
            0 <= x < y < pre.len() ==> pre[x].player_id != pre[y].player_id,
    ensures
        forall|x: int, y: int|
            0 <= x < y < pre.remove(i).len() ==> pre.remove(i)[x].player_id != pre.remove(
                i,
            )[y].player_id,
{
    pre.remove_ensures(i);
    assert forall|x: int, y: int|
        0 <= x < y < pre.remove(i).len() implies pre.remove(i)[x].player_id != pre.remove(
        i,
    )[y].player_id by {
        let x0: int = if x < i {
            x
        } else {
            x + 1
        };
        let y0: int = if y < i {
            y
        } else {
            y + 1
        };
        assert(pre.remove(i)[x] == pre[x0]);
        assert(pre.remove(i)[y] == pre[y0]);
    }
}

/// After removing the player's entry, the player is gone.
proof fn lemma_player_index_keeps(
    pre: Seq<QueueEntry>,
    post: Seq<QueueEntry>,
    pid: u128,
    j: int,
)
    requires
        0 <= j < post.len(),
        ({
            let k = player_index(pre, pid);
            (k >= 0 && post == pre.remove(k)) || (k < 0 && post == pre)
        }),
        forall|x: int, y: int|
            0 <= x < y < pre.len() ==> pre[x].player_id != pre[y].player_id,
    ensures
        post[j].player_id != pid,
{
    let k = player_index(pre, pid);
    if k >= 0 {
        lemma_player_index_found(pre, pid);
        pre.remove_ensures(k);
        if j < k {
            assert(post[j] == pre[j]);
        } else {
            assert(post[j] == pre[j + 1]);
        }
    } else {
        lemma_player_index_absent(pre, pid);
    }
}

/// A found player index is in range, lands on the player, and is the only
/// position carrying that player when entries are unique.
proof fn lemma_player_index_found(s: Seq<QueueEntry>, pid: u128)
    requires
        player_index(s, pid) >= 0,
    ensures
        0 <= player_index(s, pid) < s.len(),
        s[player_index(s, pid)].player_id == pid,
    decreases s.len(),
{
    if s.len() > 0 && s[0].player_id != pid {
        lemma_player_index_found(s.drop_first(), pid);
        assert(s.drop_first()[player_index(s.drop_first(), pid)] == s[player_index(s, pid)]);
    }
}

/// A missing player occupies no position.
proof fn lemma_player_index_absent(s: Seq<QueueEntry>, pid: u128)
    requires
        player_index(s, pid) < 0,
    ensures
        forall|j: int| 0 <= j < s.len() ==> s[j].player_id != pid,
    decreases s.len(),
{
    if s.len() > 0 {
        assert(player_index(s.drop_first(), pid) < 0);
        lemma_player_index_absent(s.drop_first(), pid);
        assert forall|j: int| 0 <= j < s.len() implies s[j].player_id != pid by {
            if j > 0 {
                assert(s.drop_first()[j - 1] == s[j]);
            }
        }
    }
}

} // verus!
