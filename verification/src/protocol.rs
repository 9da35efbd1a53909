//! Wire protocol shared by the transport layer and the game session.
//!
//! Messages are structured records tagged by variant; numeric fields are
//! fixed-width integers, identifiers opaque 128-bit values, and timestamps
//! millisecond counts.

use vstd::prelude::*;

use crate::game::logic::CombatResult;
use crate::game::types::TurnAction;

verus! {

/// Client-to-server messages, each naming the match and the sender.
#[derive(Debug)]
pub enum ClientMsg {
    Ready { game_id: u128, player_id: u128 },
    Turn { game_id: u128, player_id: u128, turn: u32, actions: Vec<TurnAction> },
    /// Sent by a client that lost its socket and re-opened a new one.
    Resume { game_id: u128, player_id: u128 },
    /// Emitted internally by the transport layer when a socket closes.
    Disconnected { game_id: u128, player_id: u128 },
}

/// Server-to-client messages.
#[derive(Debug)]
pub enum ServerMsg {
    GameStart { game_id: u128, turn: u32 },
    TurnResult { game_id: u128, turn: u32, result: CombatResult },
    GameOver { game_id: u128, winner: Option<u128> },
    /// Real-time faction chat relayed to members.
    FactionChat { faction_id: u128, sender_id: u128, content: String, ts_ms: i64 },
}

/// Two combat results carrying the same contents.
pub open spec fn result_equiv(a: CombatResult, b: CombatResult) -> bool {
    a.applied@ == b.applied@ && a.spawned@ == b.spawned@ && a.destroyed@ == b.destroyed@
}

/// Two server messages of the same variant carrying the same contents.
pub open spec fn msg_equiv(a: ServerMsg, b: ServerMsg) -> bool {
    match (a, b) {
        (
            ServerMsg::GameStart { game_id: g1, turn: t1 },
            ServerMsg::GameStart { game_id: g2, turn: t2 },
        ) => g1 == g2 && t1 == t2,
        (
            ServerMsg::TurnResult { game_id: g1, turn: t1, result: r1 },
            ServerMsg::TurnResult { game_id: g2, turn: t2, result: r2 },
        ) => g1 == g2 && t1 == t2 && result_equiv(r1, r2),
        (
            ServerMsg::GameOver { game_id: g1, winner: w1 },
            ServerMsg::GameOver { game_id: g2, winner: w2 },
        ) => g1 == g2 && w1 == w2,
        (
            ServerMsg::FactionChat { faction_id: f1, sender_id: s1, content: c1, ts_ms: m1 },
            ServerMsg::FactionChat { faction_id: f2, sender_id: s2, content: c2, ts_ms: m2 },
        ) => f1 == f2 && s1 == s2 && c1@ == c2@ && m1 == m2,
        _ => false,
    }
}

/// Equivalence lifted to an optional message.
pub open spec fn opt_msg_equiv(a: Option<ServerMsg>, b: Option<ServerMsg>) -> bool {
    match (a, b) {
        (Option::Some(x), Option::Some(y)) => msg_equiv(x, y),
        (Option::None, Option::None) => true,
        _ => false,
    }
}

/// Element-for-element copy of a vector of plain values.
pub fn copy_vec<T: Copy>(v: &Vec<T>) -> (r: Vec<T>)
    ensures
        r@ == v@,
{
    let mut r: Vec<T> = Vec::new();
    let n = v.len();
    let mut i: usize = 0;
    while i < n
        invariant
            i <= n,
            n == v@.len(),
            r@ == v@.subrange(0, i as int),
        decreases n - i,
    {
        r.push(v[i]);
        proof {
            assert(r@ =~= v@.subrange(0, i + 1));
        }
        i = i + 1;
    }
    proof {
        assert(v@.subrange(0, n as int) =~= v@);
    }
    r
}

/// A fresh combat result with the same contents.
pub fn copy_result(r: &CombatResult) -> (c: CombatResult)
    ensures
        result_equiv(*r, c),
{
    CombatResult {
        applied: copy_vec(&r.applied),
        spawned: copy_vec(&r.spawned),
        destroyed: copy_vec(&r.destroyed),
    }
}

/// A fresh server message with the same variant and contents.
pub fn copy_msg(m: &ServerMsg) -> (c: ServerMsg)
    ensures
        msg_equiv(*m, c),
{
    match m {
        ServerMsg::GameStart { game_id, turn } => ServerMsg::GameStart {
            game_id: *game_id,
            turn: *turn,
        },
        ServerMsg::TurnResult { game_id, turn, result } => ServerMsg::TurnResult {
            game_id: *game_id,
            turn: *turn,
            result: copy_result(result),
        },
        ServerMsg::GameOver { game_id, winner } => ServerMsg::GameOver {
            game_id: *game_id,
            winner: *winner,
        },
        ServerMsg::FactionChat { faction_id, sender_id, content, ts_ms } => {
            ServerMsg::FactionChat {
                faction_id: *faction_id,
                sender_id: *sender_id,
                content: content.clone(),
                ts_ms: *ts_ms,
            }
        },
    }
}

/// A fresh optional server message with the same contents.
pub fn copy_opt_msg(m: &Option<ServerMsg>) -> (c: Option<ServerMsg>)
    ensures
        opt_msg_equiv(*m, c),
{
    match m {
        Option::Some(x) => Option::Some(copy_msg(x)),
        Option::None => Option::None,
    }
}

} // verus!
