//! Per-match snapshot: the serializable image of a coordinator's state,
//! persisted after every resolved turn and used as the sole recovery
//! mechanism. A restart re-hydrates from the latest snapshot; no action
//! replay is needed because the snapshot already reflects every resolved
//! turn. Disconnect clocks are deliberately not part of the image: a
//! restored match starts its grace bookkeeping afresh.

use vstd::prelude::*;

use crate::protocol::{copy_opt_msg, copy_vec, opt_msg_equiv, ServerMsg};
use crate::game::session::{pending_view, MatchState};
use crate::game::types::{ResourcePool, TurnAction, Unit};

verus! {

/// Serialized match state, stored externally under a key derived from the
/// match id, with the disconnect grace duration as its expiry.
pub struct Snapshot {
    pub turn: u32,
    pub p1: Option<u128>,
    pub p2: Option<u128>,
    pub ready_p1: bool,
    pub ready_p2: bool,
    pub pool_p1: ResourcePool,
    pub pool_p2: ResourcePool,
    pub units_p1: Vec<Unit>,
    pub units_p2: Vec<Unit>,
    pub pending_p1: Option<(u32, Vec<TurnAction>)>,
    pub pending_p2: Option<(u32, Vec<TurnAction>)>,
    pub last_turn_result: Option<ServerMsg>,
}

impl Snapshot {
    /// The seat consistency a coordinator maintains; restoring demands it,
    /// so a caller holding bytes from outside checks it first.
    pub open spec fn wf(self) -> bool {
        &&& (self.ready_p1 ==> self.p1.is_some())
        &&& (self.ready_p2 ==> self.p2.is_some())
        &&& (self.pending_p1.is_some() ==> self.p1.is_some())
        &&& (self.pending_p2.is_some() ==> self.p2.is_some())
        &&& (self.p2.is_some() ==> self.p1.is_some())
        &&& (self.p1.is_some() && self.p2.is_some() ==> self.p1 != self.p2)
    }

    /// Runtime check of [`Snapshot::wf`], for images read back from the
    /// store.
    pub fn is_well_formed(&self) -> (b: bool)
        ensures
            b == self.wf(),
    {
        let p1_some = self.p1.is_some();
        let p2_some = self.p2.is_some();
        let distinct = match (&self.p1, &self.p2) {
            (Option::Some(a), Option::Some(b)) => *a != *b,
            _ => true,
        };
        (!self.ready_p1 || p1_some) && (!self.ready_p2 || p2_some) && (!self.pending_p1.is_some()
            || p1_some) && (!self.pending_p2.is_some() || p2_some) && (!p2_some || p1_some)
            && distinct
    }
}

/// A pending submission copied field for field.
fn copy_pending(p: &Option<(u32, Vec<TurnAction>)>) -> (r: Option<(u32, Vec<TurnAction>)>)
    ensures
        pending_view(r) == pending_view(*p),
{
    match p {
        Option::Some((t, v)) => Option::Some((*t, copy_vec(v))),
        Option::None => Option::None,
    }
}

impl MatchState {
    /// The image persisted after a resolved turn: every field carried over
    /// verbatim (disconnect clocks excepted, which the image does not hold).
    pub fn to_snapshot(&self) -> (s: Snapshot)
        requires
            self.wf(),
        ensures
            s.wf(),
            s.turn == self.turn,
            s.p1 == self.p1 && s.p2 == self.p2,
            s.ready_p1 == self.ready_p1 && s.ready_p2 == self.ready_p2,
            s.pool_p1 == self.pool_p1 && s.pool_p2 == self.pool_p2,
            s.units_p1@ == self.units_p1@ && s.units_p2@ == self.units_p2@,
            pending_view(s.pending_p1) == pending_view(self.pending_p1),
            pending_view(s.pending_p2) == pending_view(self.pending_p2),
            opt_msg_equiv(s.last_turn_result, self.last_turn_result),
    {
        Snapshot {
            turn: self.turn,
            p1: self.p1,
            p2: self.p2,
            ready_p1: self.ready_p1,
            ready_p2: self.ready_p2,
            pool_p1: self.pool_p1,
            pool_p2: self.pool_p2,
            units_p1: copy_vec(&self.units_p1),
            units_p2: copy_vec(&self.units_p2),
            pending_p1: copy_pending(&self.pending_p1),
            pending_p2: copy_pending(&self.pending_p2),
            last_turn_result: copy_opt_msg(&self.last_turn_result),
        }
    }

    /// Re-hydrates a coordinator from a stored image: every field is loaded
    /// verbatim, and both grace clocks start clear.
    pub fn restore(s: Snapshot) -> (m: MatchState)
        requires
            s.wf(),
        ensures
            m.wf(),
            m.turn == s.turn,
            m.p1 == s.p1 && m.p2 == s.p2,
            m.ready_p1 == s.ready_p1 && m.ready_p2 == s.ready_p2,
            m.dc_since_p1.is_none() && m.dc_since_p2.is_none(),
            m.pool_p1 == s.pool_p1 && m.pool_p2 == s.pool_p2,
            m.units_p1 == s.units_p1 && m.units_p2 == s.units_p2,
            m.pending_p1 == s.pending_p1 && m.pending_p2 == s.pending_p2,
            m.last_turn_result == s.last_turn_result,
    {
        MatchState {
            turn: s.turn,
            p1: s.p1,
            p2: s.p2,
            ready_p1: s.ready_p1,
            ready_p2: s.ready_p2,
            dc_since_p1: Option::None,
            dc_since_p2: Option::None,
            pool_p1: s.pool_p1,
            pool_p2: s.pool_p2,
            units_p1: s.units_p1,
            units_p2: s.units_p2,
            pending_p1: s.pending_p1,
            pending_p2: s.pending_p2,
            last_turn_result: s.last_turn_result,
        }
    }
}

} // verus!
