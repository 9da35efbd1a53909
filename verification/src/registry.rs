//! Session registry: the process-wide set of match ids with a live
//! coordinator. Routing a message either finds the coordinator already
//! registered (deliver to its inbox) or claims the id (the caller spawns
//! the one coordinator). The driver serializes access, so each call here is
//! one atomic registry step; the at-most-one-coordinator guarantee is the
//! [`lemma_at_most_one_coordinator`] law over those steps.

use vstd::prelude::*;

verus! {

/// One registry step on the set of live ids: an unseen id is claimed (the
/// caller must spawn), a present id is left alone (the caller delivers).
pub open spec fn route_spec(ids: Seq<u128>, game_id: u128) -> (Seq<u128>, bool) {
    if ids.contains(game_id) {
        (ids, false)
    } else {
        (ids.push(game_id), true)
    }
}

/// The set of match ids with a live coordinator.
pub struct SessionRegistry {
    live: Vec<u128>,
}

impl SessionRegistry {
    /// The registered ids, in registration order.
    pub closed spec fn ids(self) -> Seq<u128> {
        self.live@
    }

    /// No id is registered twice.
    pub closed spec fn wf(self) -> bool {
        forall|i: int, j: int| 0 <= i < j < self.live@.len() ==> self.live@[i] != self.live@[j]
    }

    pub fn new() -> (r: SessionRegistry)
        ensures
            r.wf(),
            r.ids() == Seq::<u128>::empty(),
    {
        SessionRegistry { live: Vec::new() }
    }

    /// Whether a coordinator is registered for this match.
    pub fn is_live(&self, game_id: u128) -> (b: bool)
        ensures
            b == self.ids().contains(game_id),
    {
        let n = self.live.len();
        let mut i: usize = 0;
        while i < n
            invariant
                i <= n,
                n == self.live@.len(),
                forall|j: int| 0 <= j < i ==> self.live@[j] != game_id,
            decreases n - i,
        {
            if self.live[i] == game_id {
                return true;
            }
            i = i + 1;
        }
        false
    }

    /// Routes one message: returns true exactly when this call claimed the
    /// id, in which case the caller (and nobody else) spawns the
    /// coordinator; a false return means a coordinator is already
    /// registered and the message is to be delivered to it.
    pub fn route(&mut self, game_id: u128) -> (spawn: bool)
        requires
            old(self).wf(),
        ensures
            final(self).wf(),
            (final(self).ids(), spawn) == route_spec(old(self).ids(), game_id),
            final(self).ids().contains(game_id),
    {
        if self.is_live(game_id) {
            false
        } else {
            proof {
                assert(forall|k: int| 0 <= k < self.live@.len() ==> self.live@[k] != game_id);
            }
            self.live.push(game_id);
            proof {
                assert(self.live@[self.live@.len() - 1] == game_id);
            }
            true
        }
    }

    /// Removes a match on coordinator exit; removing an unknown id is a
    /// no-op, so deregistration is idempotent.
    pub fn deregister(&mut self, game_id: u128)
        requires
            old(self).wf(),
        ensures
            final(self).wf(),
            !final(self).ids().contains(game_id),
            forall|id: u128| id != game_id ==> final(self).ids().contains(id) == old(
                self,
            ).ids().contains(id),
    {
        let ghost pre = self.live@;
        let n = self.live.len();
        let mut i: usize = 0;
        while i < n
            invariant
                i <= n,
                n == self.live@.len(),
                self.live@ == pre,
                pre == old(self).ids(),
                forall|x: int, y: int| 0 <= x < y < pre.len() ==> pre[x] != pre[y],
                forall|j: int| 0 <= j < i ==> self.live@[j] != game_id,
            decreases n - i,
        {
            if self.live[i] == game_id {
                self.live.remove(i);
                proof {
                    let post = pre.remove(i as int);
                    pre.remove_ensures(i as int);
                    assert(self.live@ == post);
                    assert forall|k: int| 0 <= k < post.len() implies post[k] != game_id by {
                        if k < i {
                            assert(post[k] == pre[k]);
                        } else {
                            assert(post[k] == pre[k + 1]);
                        }
                    }
                    assert(!post.contains(game_id));
                    assert forall|x: int, y: int|
                        0 <= x < y < post.len() implies post[x] != post[y] by {
                        let x0: int = if x < i { x } else { x + 1 };
                        let y0: int = if y < i { y } else { y + 1 };
                        assert(post[x] == pre[x0]);
                        assert(post[y] == pre[y0]);
                    }
                    assert forall|id: u128|
                        id != game_id implies post.contains(id) == pre.contains(id) by {
                        if pre.contains(id) {
                            let w = choose|w: int| 0 <= w < pre.len() && pre[w] == id;
                            if w < i {
                                assert(post[w] == id);
                            } else {
                                assert(w != i);
                                assert(post[w - 1] == pre[w]);
                            }
                            assert(post.contains(id));
                        }
                        if post.contains(id) {
                            let w = choose|w: int| 0 <= w < post.len() && post[w] == id;
                            if w < i {
                                assert(pre[w] == id);
                            } else {
                                assert(pre[w + 1] == id);
                            }
                            assert(pre.contains(id));
                        }
                    }
                }
                return ;
            }
            i = i + 1;
        }
        proof {
            assert(forall|k: int| 0 <= k < self.live@.len() ==> self.live@[k] != game_id);
            assert(!self.live@.contains(game_id));
        }
    }
}

/// At most one coordinator: of two racing routes for a previously unseen
/// match id — serialized in either order by the registry — exactly the
/// first claims the id and spawns; the second finds it registered and only
/// delivers, and the registry is left exactly as the first call left it.
pub proof fn lemma_at_most_one_coordinator(ids: Seq<u128>, game_id: u128)
    requires
        !ids.contains(game_id),
    ensures
        route_spec(ids, game_id).1 == true,
        route_spec(route_spec(ids, game_id).0, game_id).1 == false,
        route_spec(route_spec(ids, game_id).0, game_id).0 == route_spec(ids, game_id).0,
{
    assert(route_spec(ids, game_id).0.contains(game_id)) by {
        assert(ids.push(game_id)[ids.len() as int] == game_id);
    }
}

} // verus!
