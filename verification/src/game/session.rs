//! Per-match session: the coordinator's state machine.
//!
//! One coordinator task owns one match. It processes one inbound message at
//! a time, so every transition here is a plain function from the current
//! [`MatchState`] and one event to the next state plus a list of [`Effect`]s
//! for the driver to perform (publishes, snapshot writes, rating updates).
//! The driver performs I/O only; every decision stands here.

use vstd::prelude::*;

use crate::game::logic;
use crate::game::logic::{resolve_spec, Resolution};
use crate::protocol::{copy_msg, copy_result, msg_equiv, ServerMsg};
use crate::game::types::{ResourcePool, TurnAction, Unit};

verus! {

/// Failure surfaced to the transport layer when a message cannot be
/// delivered to a coordinator's inbox.
#[derive(Debug, Clone, Copy, PartialEq, Eq, Structural)]
pub enum DispatchErr {
    ChannelClosed,
}

/// An externally visible action the driver must perform after a transition,
/// in list order.
pub enum Effect {
    /// Publish `msg` on the channel addressed to player `to`.
    Publish { to: u128, msg: ServerMsg },
    /// Persist a fresh snapshot of the current state, with the disconnect
    /// grace duration as its time-to-live.
    SaveSnapshot,
    /// Apply a rating delta to `player` in the rating ledger (floored at
    /// zero there).
    ApplyRatingDelta { player: u128, delta: i32 },
    /// Persist the match's terminal status and both deltas.
    PersistFinished { winner: Option<u128>, delta_p1: i32, delta_p2: i32 },
    /// Delete the match's snapshot.
    DeleteSnapshot,
}

/// Full state of one live match, owned exclusively by its coordinator.
pub struct MatchState {
    pub turn: u32,
    pub p1: Option<u128>,
    pub p2: Option<u128>,
    pub ready_p1: bool,
    pub ready_p2: bool,
    /// Millisecond timestamps of each player's pending disconnect, if any.
    pub dc_since_p1: Option<u64>,
    pub dc_since_p2: Option<u64>,
    pub pool_p1: ResourcePool,
    pub pool_p2: ResourcePool,
    pub units_p1: Vec<Unit>,
    pub units_p2: Vec<Unit>,
    /// A submitted but unresolved batch: turn number and actions.
    pub pending_p1: Option<(u32, Vec<TurnAction>)>,
    pub pending_p2: Option<(u32, Vec<TurnAction>)>,
    /// Retained for resume replay.
    pub last_turn_result: Option<ServerMsg>,
}

/// The fixed starting allotment of both players.
pub open spec fn starting_pool() -> ResourcePool {
    ResourcePool { energy: 5, biomass: 5, gene_seeds: 2 }
}

/// A pending submission reduced to its mathematical content.
pub open spec fn pending_view(p: Option<(u32, Vec<TurnAction>)>) -> Option<(u32, Seq<TurnAction>)> {
    match p {
        Option::Some((t, v)) => Option::Some((t, v@)),
        Option::None => Option::None,
    }
}

// ---------------------------------------------------------------------------
// Effect descriptions used by the transition contracts
// ---------------------------------------------------------------------------

/// `e` publishes to `to` a message equivalent to `m`.
pub open spec fn is_publish_equiv(e: Effect, to: u128, m: ServerMsg) -> bool {
    e matches Effect::Publish { to: t0, msg } && t0 == to && msg_equiv(msg, m)
}

/// `e` publishes a `GameStart` for `gid` at `turn` to `to`.
pub open spec fn is_game_start(e: Effect, to: u128, gid: u128, turn: u32) -> bool {
    e matches Effect::Publish { to: t0, msg: ServerMsg::GameStart { game_id, turn: t } }
        && t0 == to && game_id == gid && t == turn
}

/// `e` publishes a `GameOver` naming `winner` for `gid` to `to`.
pub open spec fn is_game_over(e: Effect, to: u128, gid: u128, winner: Option<u128>) -> bool {
    e matches Effect::Publish { to: t0, msg: ServerMsg::GameOver { game_id, winner: w } }
        && t0 == to && game_id == gid && w == winner
}

/// `m` is the turn-result broadcast of resolution `res` for turn `t`.
pub open spec fn is_turn_result_msg(m: ServerMsg, gid: u128, t: u32, res: Resolution) -> bool {
    m matches ServerMsg::TurnResult { game_id, turn, result } && game_id == gid && turn == t
        && result.applied@ == res.applied && result.spawned@ == res.spawned
        && result.destroyed@ == res.destroyed
}

impl MatchState {
    /// Internal consistency: a seat-level flag or record always points at a
    /// bound player, the second seat is bound only after the first, and the
    /// two seats never hold the same player.
    pub open spec fn wf(self) -> bool {
        &&& (self.ready_p1 ==> self.p1.is_some())
        &&& (self.ready_p2 ==> self.p2.is_some())
        &&& (self.dc_since_p1.is_some() ==> self.p1.is_some())
        &&& (self.dc_since_p2.is_some() ==> self.p2.is_some())
        &&& (self.pending_p1.is_some() ==> self.p1.is_some())
        &&& (self.pending_p2.is_some() ==> self.p2.is_some())
        &&& (self.p2.is_some() ==> self.p1.is_some())
        &&& (self.p1.is_some() && self.p2.is_some() ==> self.p1 != self.p2)
    }

    /// Fresh state for a match nobody has joined yet: turn zero, both pools
    /// at the starting allotment, empty rosters, nothing pending.
    pub fn new() -> (s: MatchState)
        ensures
            s.wf(),
            s.turn == 0,
            s.p1.is_none() && s.p2.is_none(),
            !s.ready_p1 && !s.ready_p2,
            s.dc_since_p1.is_none() && s.dc_since_p2.is_none(),
            s.pool_p1 == starting_pool() && s.pool_p2 == starting_pool(),
            s.units_p1@ == Seq::<Unit>::empty() && s.units_p2@ == Seq::<Unit>::empty(),
            s.pending_p1.is_none() && s.pending_p2.is_none(),
            s.last_turn_result.is_none(),
    {
        MatchState {
            turn: 0,
            p1: Option::None,
            p2: Option::None,
            ready_p1: false,
            ready_p2: false,
            dc_since_p1: Option::None,
            dc_since_p2: Option::None,
            pool_p1: ResourcePool { energy: 5, biomass: 5, gene_seeds: 2 },
            pool_p2: ResourcePool { energy: 5, biomass: 5, gene_seeds: 2 },
            units_p1: Vec::new(),
            units_p2: Vec::new(),
            pending_p1: Option::None,
            pending_p2: Option::None,
            last_turn_result: Option::None,
        }
    }
}

// ---------------------------------------------------------------------------
// Ready / Resume
// ---------------------------------------------------------------------------

/// Seat 1 after a ready or resume from `pid`: the first unseen sender binds
/// the free first seat.
pub open spec fn bound_p1(pre: MatchState, pid: u128) -> Option<u128> {
    if pre.p1.is_none() {
        Option::Some(pid)
    } else {
        pre.p1
    }
}

/// Seat 2 after a ready or resume from `pid`: bound only when seat 1 is
/// already taken by someone else and seat 2 is free (a duplicate of seat 1
/// is rejected).
pub open spec fn bound_p2(pre: MatchState, pid: u128) -> Option<u128> {
    if !pre.p1.is_none() && pre.p2.is_none() && pre.p1 != Option::Some(pid) {
        Option::Some(pid)
    } else {
        pre.p2
    }
}

/// Seat 1's readiness after the message: set when the sender sits there.
pub open spec fn ready_after_p1(pre: MatchState, pid: u128) -> bool {
    pre.ready_p1 || bound_p1(pre, pid) == Option::Some(pid)
}

/// Seat 2's readiness after the message.
pub open spec fn ready_after_p2(pre: MatchState, pid: u128) -> bool {
    pre.ready_p2 || bound_p2(pre, pid) == Option::Some(pid)
}

/// How a ready or resume from `pid` transforms the state: seats bound as
/// [`bound_p1`]/[`bound_p2`] say, the sender's seat marked ready with its
/// disconnect clock cleared, everything else untouched.
pub open spec fn ready_state_rel(pre: MatchState, post: MatchState, pid: u128) -> bool {
    let is_p1 = bound_p1(pre, pid) == Option::Some(pid);
    let is_p2 = bound_p2(pre, pid) == Option::Some(pid);
    &&& post.p1 == bound_p1(pre, pid)
    &&& post.p2 == bound_p2(pre, pid)
    &&& post.ready_p1 == ready_after_p1(pre, pid)
    &&& post.ready_p2 == ready_after_p2(pre, pid)
    &&& post.dc_since_p1 == if is_p1 { Option::<u64>::None } else { pre.dc_since_p1 }
    &&& post.dc_since_p2 == if is_p2 { Option::<u64>::None } else { pre.dc_since_p2 }
    &&& post.turn == pre.turn
    &&& post.pool_p1 == pre.pool_p1 && post.pool_p2 == pre.pool_p2
    &&& post.units_p1 == pre.units_p1 && post.units_p2 == pre.units_p2
    &&& post.pending_p1 == pre.pending_p1 && post.pending_p2 == pre.pending_p2
    &&& post.last_turn_result == pre.last_turn_result
}

/// The outbound events of a ready or resume: a resume replays the last
/// outcome to the sender first; when both seats end up ready, `GameStart`
/// goes to both, followed by the last outcome to both if one exists.
pub open spec fn ready_events_rel(
    pre: MatchState,
    effects: Seq<Effect>,
    pid: u128,
    resume: bool,
    gid: u128,
) -> bool {
    let replay = resume && pre.last_turn_result.is_some();
    let announce = ready_after_p1(pre, pid) && ready_after_p2(pre, pid);
    let extra = announce && pre.last_turn_result.is_some();
    let base: int = if replay { 1 } else { 0 };
    &&& effects.len() == base + (if announce { 2int } else { 0 }) + (if extra { 2int } else { 0 })
    &&& (replay ==> is_publish_equiv(effects[0], pid, pre.last_turn_result.unwrap()))
    &&& (announce ==> is_game_start(effects[base], bound_p1(pre, pid).unwrap(), gid, pre.turn))
    &&& (announce ==> is_game_start(effects[base + 1], bound_p2(pre, pid).unwrap(), gid, pre.turn))
    &&& (extra ==> is_publish_equiv(
        effects[base + 2],
        bound_p1(pre, pid).unwrap(),
        pre.last_turn_result.unwrap(),
    ))
    &&& (extra ==> is_publish_equiv(
        effects[base + 3],
        bound_p2(pre, pid).unwrap(),
        pre.last_turn_result.unwrap(),
    ))
}

/// Resume replay: while the opponent is not (yet) ready, a bound player's
/// resume after a resolved turn hands exactly one message back — a copy of
/// the last turn outcome, to the resuming player alone — and leaves the
/// match state unchanged but for that player's own readiness and cleared
/// grace clock.
pub proof fn lemma_resume_replays_once(
    pre: MatchState,
    post: MatchState,
    effects: Seq<Effect>,
    pid: u128,
    gid: u128,
)
    requires
        pre.wf(),
        pre.last_turn_result.is_some(),
        pre.p1 == Option::Some(pid) || pre.p2 == Option::Some(pid),
        !(ready_after_p1(pre, pid) && ready_after_p2(pre, pid)),
        ready_state_rel(pre, post, pid),
        ready_events_rel(pre, effects, pid, true, gid),
    ensures
        effects.len() == 1,
        is_publish_equiv(effects[0], pid, pre.last_turn_result.unwrap()),
        post.p1 == pre.p1 && post.p2 == pre.p2,
        post.turn == pre.turn,
        post.pool_p1 == pre.pool_p1 && post.pool_p2 == pre.pool_p2,
        post.units_p1 == pre.units_p1 && post.units_p2 == pre.units_p2,
        post.pending_p1 == pre.pending_p1 && post.pending_p2 == pre.pending_p2,
        post.last_turn_result == pre.last_turn_result,
{
}

impl MatchState {
    /// Handles `Ready` and `Resume`: binds the sender to a free seat, marks
    /// it ready, clears its disconnect clock; a resume re-sends the last
    /// turn outcome to the sender alone; once both seats are ready the
    /// `GameStart` (and the last outcome, if any) is broadcast — idempotent,
    /// so a reconnecting pair simply hears it again.
    pub fn handle_ready(&mut self, player_id: u128, resume: bool, game_id: u128) -> (effects: Vec<
        Effect,
    >)
        requires
            old(self).wf(),
        ensures
            final(self).wf(),
            ready_state_rel(*old(self), *final(self), player_id),
            ready_events_rel(*old(self), effects@, player_id, resume, game_id),
    {
        let mut effects: Vec<Effect> = Vec::new();
        if self.p1.is_none() {
            self.p1 = Option::Some(player_id);
        } else if self.p2.is_none() && !opt_holds(&self.p1, player_id) {
            self.p2 = Option::Some(player_id);
        }

        if opt_holds(&self.p1, player_id) {
            self.ready_p1 = true;
            self.dc_since_p1 = Option::None;
        }
        if opt_holds(&self.p2, player_id) {
            self.ready_p2 = true;
            self.dc_since_p2 = Option::None;
        }

        // On explicit resume, replay the last turn so the client catches up.
        if resume {
            if let Option::Some(tr) = &self.last_turn_result {
                effects.push(Effect::Publish { to: player_id, msg: copy_msg(tr) });
            }
        }

        // Both ready: (re-)announce the start, then the last outcome if any.
        if self.ready_p1 && self.ready_p2 {
            let a = match self.p1 {
                Option::Some(x) => x,
                Option::None => 0,
            };
            let b = match self.p2 {
                Option::Some(x) => x,
                Option::None => 0,
            };
            effects.push(
                Effect::Publish { to: a, msg: ServerMsg::GameStart { game_id, turn: self.turn } },
            );
            effects.push(
                Effect::Publish { to: b, msg: ServerMsg::GameStart { game_id, turn: self.turn } },
            );
            if let Option::Some(tr) = &self.last_turn_result {
                effects.push(Effect::Publish { to: a, msg: copy_msg(tr) });
                effects.push(Effect::Publish { to: b, msg: copy_msg(tr) });
            }
        }
        effects
    }

    /// Handles a disconnect notice: clears the player's readiness and starts
    /// that player's grace clock at `now_ms`. The match does not end here.
    pub fn handle_disconnected(&mut self, player_id: u128, now_ms: u64)
        requires
            old(self).wf(),
        ensures
            final(self).wf(),
            ({
                let pre = *old(self);
                let post = *final(self);
                let is_p1 = pre.p1 == Option::Some(player_id);
                let is_p2 = pre.p2 == Option::Some(player_id);
                &&& post.ready_p1 == (if is_p1 { false } else { pre.ready_p1 })
                &&& post.ready_p2 == (if is_p2 { false } else { pre.ready_p2 })
                &&& post.dc_since_p1 == if is_p1 { Option::Some(now_ms) } else { pre.dc_since_p1 }
                &&& post.dc_since_p2 == if is_p2 { Option::Some(now_ms) } else { pre.dc_since_p2 }
                &&& post.p1 == pre.p1 && post.p2 == pre.p2
                &&& post.turn == pre.turn
                &&& post.pool_p1 == pre.pool_p1 && post.pool_p2 == pre.pool_p2
                &&& post.units_p1 == pre.units_p1 && post.units_p2 == pre.units_p2
                &&& post.pending_p1 == pre.pending_p1 && post.pending_p2 == pre.pending_p2
                &&& post.last_turn_result == pre.last_turn_result
            }),
    {
        if opt_holds(&self.p1, player_id) {
            self.ready_p1 = false;
            self.dc_since_p1 = Option::Some(now_ms);
        }
        if opt_holds(&self.p2, player_id) {
            self.ready_p2 = false;
            self.dc_since_p2 = Option::Some(now_ms);
        }
    }
}

/// Whether the option holds exactly this id.
fn opt_holds(o: &Option<u128>, v: u128) -> (b: bool)
    ensures
        b == (*o == Option::Some(v)),
{
    match o {
        Option::Some(x) => *x == v,
        Option::None => false,
    }
}

// ---------------------------------------------------------------------------
// Turn submission and resolution
// ---------------------------------------------------------------------------

/// Seat 1's pending slot after `pid` submits `(t, actions)`.
pub open spec fn stored_p1(
    pre: MatchState,
    pid: u128,
    t: u32,
    actions: Seq<TurnAction>,
) -> Option<(u32, Seq<TurnAction>)> {
    if pre.p1 == Option::Some(pid) {
        Option::Some((t, actions))
    } else {
        pending_view(pre.pending_p1)
    }
}

/// Seat 2's pending slot after `pid` submits `(t, actions)`.
pub open spec fn stored_p2(
    pre: MatchState,
    pid: u128,
    t: u32,
    actions: Seq<TurnAction>,
) -> Option<(u32, Seq<TurnAction>)> {
    if pre.p2 == Option::Some(pid) {
        Option::Some((t, actions))
    } else {
        pending_view(pre.pending_p2)
    }
}

/// Resolution fires when both pending slots hold the same turn number.
pub open spec fn fires(
    pre: MatchState,
    pid: u128,
    t: u32,
    actions: Seq<TurnAction>,
) -> bool {
    let s1 = stored_p1(pre, pid, t, actions);
    let s2 = stored_p2(pre, pid, t, actions);
    s1.is_some() && s2.is_some() && s1.unwrap().0 == s2.unwrap().0
}

/// What firing resolves to.
pub open spec fn fired_resolution(
    pre: MatchState,
    pid: u128,
    t: u32,
    actions: Seq<TurnAction>,
) -> Resolution {
    resolve_spec(
        stored_p1(pre, pid, t, actions).unwrap().1,
        stored_p2(pre, pid, t, actions).unwrap().1,
        pre.pool_p1,
        pre.pool_p2,
        pre.units_p1@,
        pre.units_p2@,
    )
}

impl MatchState {
    /// Handles a turn submission: stores the batch in the sender's pending
    /// slot (overwriting an earlier batch for the same slot; a message from
    /// a player bound to neither seat stores nothing). When both players
    /// hold a pending batch for the same turn number, resolution fires: the
    /// outcome is broadcast to both players, both slots clear, the turn
    /// counter advances, and a fresh snapshot is due. The second component
    /// of the result says whether the advanced counter reached `max_turns`,
    /// upon which the caller must run the finish path.
    pub fn handle_turn(
        &mut self,
        player_id: u128,
        t: u32,
        actions: Vec<TurnAction>,
        game_id: u128,
        max_turns: u32,
    ) -> (r: (Vec<Effect>, bool))
        requires
            old(self).wf(),
            old(self).turn < u32::MAX,
        ensures
            final(self).wf(),
            ({
                let pre = *old(self);
                let post = *final(self);
                let effects = r.0;
                let fire = fires(pre, player_id, t, actions@);
                &&& post.p1 == pre.p1 && post.p2 == pre.p2
                &&& post.ready_p1 == pre.ready_p1 && post.ready_p2 == pre.ready_p2
                &&& post.dc_since_p1 == pre.dc_since_p1 && post.dc_since_p2 == pre.dc_since_p2
                &&& (!fire ==> {
                    &&& pending_view(post.pending_p1) == stored_p1(pre, player_id, t, actions@)
                    &&& pending_view(post.pending_p2) == stored_p2(pre, player_id, t, actions@)
                    &&& post.turn == pre.turn
                    &&& post.pool_p1 == pre.pool_p1 && post.pool_p2 == pre.pool_p2
                    &&& post.units_p1 == pre.units_p1 && post.units_p2 == pre.units_p2
                    &&& post.last_turn_result == pre.last_turn_result
                    &&& effects@.len() == 0
                    &&& r.1 == false
                })
                &&& (fire ==> {
                    let res = fired_resolution(pre, player_id, t, actions@);
                    let tn = stored_p1(pre, player_id, t, actions@).unwrap().0;
                    &&& post.pool_p1 == res.pool1 && post.pool_p2 == res.pool2
                    &&& post.units_p1@ == res.units1 && post.units_p2@ == res.units2
                    &&& post.pending_p1.is_none() && post.pending_p2.is_none()
                    &&& post.turn == pre.turn + 1
                    &&& post.last_turn_result.is_some()
                    &&& is_turn_result_msg(post.last_turn_result.unwrap(), game_id, tn, res)
                    &&& effects@.len() == 3
                    &&& is_publish_equiv(
                        effects@[0],
                        pre.p1.unwrap(),
                        post.last_turn_result.unwrap(),
                    )
                    &&& is_publish_equiv(
                        effects@[1],
                        pre.p2.unwrap(),
                        post.last_turn_result.unwrap(),
                    )
                    &&& effects@[2] matches Effect::SaveSnapshot
                    &&& r.1 == (pre.turn + 1 >= max_turns)
                })
            }),
    {
        if opt_holds(&self.p1, player_id) {
            self.pending_p1 = Option::Some((t, actions));
        } else if opt_holds(&self.p2, player_id) {
            self.pending_p2 = Option::Some((t, actions));
        }

        let fire = match (&self.pending_p1, &self.pending_p2) {
            (Option::Some((ta, _)), Option::Some((tb, _))) => *ta == *tb,
            _ => false,
        };
        if !fire {
            return (Vec::new(), false);
        }

        let taken1 = self.pending_p1.take();
        let taken2 = self.pending_p2.take();
        if let (Option::Some((ta, a1)), Option::Some((tb, a2))) = (taken1, taken2) {
            let result = logic::resolve_turn(
                a1,
                a2,
                &mut self.pool_p1,
                &mut self.pool_p2,
                &mut self.units_p1,
                &mut self.units_p2,
            );
            let p1id = match self.p1 {
                Option::Some(x) => x,
                Option::None => 0,
            };
            let p2id = match self.p2 {
                Option::Some(x) => x,
                Option::None => 0,
            };
            let mut effects: Vec<Effect> = Vec::new();
            effects.push(
                Effect::Publish {
                    to: p1id,
                    msg: ServerMsg::TurnResult { game_id, turn: ta, result: copy_result(&result) },
                },
            );
            effects.push(
                Effect::Publish {
                    to: p2id,
                    msg: ServerMsg::TurnResult { game_id, turn: ta, result: copy_result(&result) },
                },
            );
            effects.push(Effect::SaveSnapshot);
            self.last_turn_result = Option::Some(
                ServerMsg::TurnResult { game_id, turn: ta, result },
            );
            self.turn = self.turn + 1;
            let ended = self.turn >= max_turns;
            (effects, ended)
        } else {
            // Unreachable: the fire check just saw both slots filled.
            proof {
                assert(false);
            }
            (Vec::new(), false)
        }
    }
}

// ---------------------------------------------------------------------------
// Grace timeout and finish
// ---------------------------------------------------------------------------

/// Elapsed milliseconds on a monotonic clock, guarded against going
/// backwards.
pub open spec fn elapsed_ms(now_ms: u64, since_ms: u64) -> u64 {
    if now_ms >= since_ms {
        (now_ms - since_ms) as u64
    } else {
        0
    }
}

/// A forfeit in favor of the other player is due: this player's grace clock
/// runs, the other seat is bound, and the grace duration has elapsed.
pub open spec fn grace_over(
    dc_since: Option<u64>,
    other: Option<u128>,
    now_ms: u64,
    grace_ms: u64,
) -> bool {
    dc_since.is_some() && other.is_some() && elapsed_ms(now_ms, dc_since.unwrap()) >= grace_ms
}

impl MatchState {
    /// The periodic grace check: when a player has been disconnected for at
    /// least the grace duration and an opponent exists, the match is to end
    /// by forfeit; the result names `(winner, loser)`. Seat 1's clock is
    /// inspected first, which settles the race when both clocks expired in
    /// the same tick.
    pub fn grace_expired(&self, now_ms: u64, grace_ms: u64) -> (r: Option<(u128, u128)>)
        requires
            self.wf(),
        ensures
            r == if grace_over(self.dc_since_p1, self.p2, now_ms, grace_ms) {
                Option::Some((self.p2.unwrap(), self.p1.unwrap()))
            } else if grace_over(self.dc_since_p2, self.p1, now_ms, grace_ms) {
                Option::Some((self.p1.unwrap(), self.p2.unwrap()))
            } else {
                Option::<(u128, u128)>::None
            },
    {
        if let (Option::Some(t0), Option::Some(p2)) = (&self.dc_since_p1, &self.p2) {
            let since = *t0;
            let elapsed = if now_ms >= since {
                now_ms - since
            } else {
                0
            };
            if elapsed >= grace_ms {
                return Option::Some((*p2, bound_id(&self.p1)));
            }
        }
        if let (Option::Some(t0), Option::Some(p1)) = (&self.dc_since_p2, &self.p1) {
            let since = *t0;
            let elapsed = if now_ms >= since {
                now_ms - since
            } else {
                0
            };
            if elapsed >= grace_ms {
                return Option::Some((*p1, bound_id(&self.p2)));
            }
        }
        Option::None
    }
}

/// The bound id of a seat; callers only use this on a bound seat, so the
/// fallback is never observed.
fn bound_id(o: &Option<u128>) -> (v: u128)
    ensures
        o.is_some() ==> v == o.unwrap(),
{
    match o {
        Option::Some(x) => *x,
        Option::None => 0,
    }
}

/// The winner by rosters: the side that alone retains units, a draw (no
/// winner) when both or neither do.
pub open spec fn spec_decide_winner(
    u1: Seq<Unit>,
    u2: Seq<Unit>,
    p1: Option<u128>,
    p2: Option<u128>,
) -> Option<u128> {
    if u1.len() > 0 && u2.len() == 0 {
        p1
    } else if u1.len() == 0 && u2.len() > 0 {
        p2
    } else {
        Option::None
    }
}

/// Decides the winner at normal completion: `Some(player)` when exactly one
/// side retains units.
pub fn decide_winner(
    u1: &Vec<Unit>,
    u2: &Vec<Unit>,
    p1: Option<u128>,
    p2: Option<u128>,
) -> (w: Option<u128>)
    ensures
        w == spec_decide_winner(u1@, u2@, p1, p2),
{
    if u1.len() > 0 && u2.len() == 0 {
        p1
    } else if u1.len() == 0 && u2.len() > 0 {
        p2
    } else {
        Option::None
    }
}

/// The outcome flag the rating update takes: 1 when seat 1 won, 2 when
/// seat 2 won, 0 otherwise (a draw).
pub open spec fn spec_winner_flag(winner: Option<u128>, p1: u128, p2: u128) -> u8 {
    match winner {
        Option::Some(id) => if id == p1 {
            1u8
        } else if id == p2 {
            2u8
        } else {
            0u8
        },
        Option::None => 0u8,
    }
}

fn winner_flag(winner: Option<u128>, p1: u128, p2: u128) -> (f: u8)
    ensures
        f == spec_winner_flag(winner, p1, p2),
        f <= 2,
{
    match winner {
        Option::Some(id) => if id == p1 {
            1
        } else if id == p2 {
            2
        } else {
            0
        },
        Option::None => 0,
    }
}

/// The effect list shared by every terminal outcome, given both players'
/// current ratings: apply both rating deltas, persist the terminal status
/// with the deltas, tell both players who won, and delete the snapshot.
/// Runs once per match; the caller deregisters and exits afterwards.
pub fn finish_game_effects(
    game_id: u128,
    units_p1: &Vec<Unit>,
    units_p2: &Vec<Unit>,
    p1: Option<u128>,
    p2: Option<u128>,
    rating_p1: i32,
    rating_p2: i32,
) -> (effects: Vec<Effect>)
    ensures
        ({
            let w = spec_decide_winner(units_p1@, units_p2@, p1, p2);
            if p1.is_some() && p2.is_some() {
                let flag = spec_winner_flag(w, p1.unwrap(), p2.unwrap());
                let d1 = crate::game::scoring::p1_delta(rating_p1 as int, rating_p2 as int, flag);
                let d2 = crate::game::scoring::p2_delta(rating_p1 as int, rating_p2 as int, flag);
                &&& effects@.len() == 6
                &&& effects@[0] matches Effect::ApplyRatingDelta { player, delta }
                    && player == p1.unwrap() && delta == d1
                &&& effects@[1] matches Effect::ApplyRatingDelta { player, delta }
                    && player == p2.unwrap() && delta == d2
                &&& effects@[2] matches Effect::PersistFinished { winner, delta_p1, delta_p2 }
                    && winner == w && delta_p1 == d1 && delta_p2 == d2
                &&& is_game_over(effects@[3], p1.unwrap(), game_id, w)
                &&& is_game_over(effects@[4], p2.unwrap(), game_id, w)
                &&& effects@[5] matches Effect::DeleteSnapshot
            } else {
                &&& effects@.len() == 1
                &&& effects@[0] matches Effect::DeleteSnapshot
            }
        }),
{
    let winner = decide_winner(units_p1, units_p2, p1, p2);
    let mut effects: Vec<Effect> = Vec::new();
    if let (Option::Some(a), Option::Some(b)) = (p1, p2) {
        let flag = winner_flag(winner, a, b);
        let (d1, d2) = crate::game::scoring::elo_delta(rating_p1, rating_p2, flag, 32);
        effects.push(Effect::ApplyRatingDelta { player: a, delta: d1 });
        effects.push(Effect::ApplyRatingDelta { player: b, delta: d2 });
        effects.push(Effect::PersistFinished { winner, delta_p1: d1, delta_p2: d2 });
        effects.push(Effect::Publish { to: a, msg: ServerMsg::GameOver { game_id, winner } });
        effects.push(Effect::Publish { to: b, msg: ServerMsg::GameOver { game_id, winner } });
    }
    effects.push(Effect::DeleteSnapshot);
    effects
}

/// The terminal effects of a forfeit: the winner takes the victor's rating
/// delta, the loser the other, the persisted record lists them in that
/// order, both players hear one `GameOver` naming the winner, and the
/// snapshot is deleted.
pub fn finish_forfeit_effects(
    game_id: u128,
    winner: u128,
    loser: u128,
    rating_winner: i32,
    rating_loser: i32,
) -> (effects: Vec<Effect>)
    ensures
        ({
            let d1 = crate::game::scoring::p1_delta(rating_winner as int, rating_loser as int, 1);
            let d2 = crate::game::scoring::p2_delta(rating_winner as int, rating_loser as int, 1);
            &&& effects@.len() == 6
            &&& effects@[0] matches Effect::ApplyRatingDelta { player, delta }
                && player == winner && delta == d1
            &&& effects@[1] matches Effect::ApplyRatingDelta { player, delta }
                && player == loser && delta == d2
            &&& effects@[2] matches Effect::PersistFinished { winner: w, delta_p1, delta_p2 }
                && w == Option::Some(winner) && delta_p1 == d1 && delta_p2 == d2
            &&& is_game_over(effects@[3], winner, game_id, Option::Some(winner))
            &&& is_game_over(effects@[4], loser, game_id, Option::Some(winner))
            &&& effects@[5] matches Effect::DeleteSnapshot
        }),
{
    let (d1, d2) = crate::game::scoring::elo_delta(rating_winner, rating_loser, 1, 32);
    let mut effects: Vec<Effect> = Vec::new();
    effects.push(Effect::ApplyRatingDelta { player: winner, delta: d1 });
    effects.push(Effect::ApplyRatingDelta { player: loser, delta: d2 });
    effects.push(
        Effect::PersistFinished { winner: Option::Some(winner), delta_p1: d1, delta_p2: d2 },
    );
    effects.push(
        Effect::Publish {
            to: winner,
            msg: ServerMsg::GameOver { game_id, winner: Option::Some(winner) },
        },
    );
    effects.push(
        Effect::Publish {
            to: loser,
            msg: ServerMsg::GameOver { game_id, winner: Option::Some(winner) },
        },
    );
    effects.push(Effect::DeleteSnapshot);
    effects
}

} // verus!
