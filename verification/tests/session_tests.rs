//! The session coordinator's state machine: readiness, turn exchange,
//! resume replay, grace-timeout forfeit, and snapshot round trips.

use biotonic_server::game::session::{
    finish_forfeit_effects, finish_game_effects, Effect, MatchState,
};
use biotonic_server::game::types::{TurnAction, Unit, UnitType};
use biotonic_server::protocol::ServerMsg;

const A: u128 = 0xA;
const B: u128 = 0xB;
const GID: u128 = 0x6A8E;
const MAX_TURNS: u32 = 5;

fn light(id: u128, owner: u128) -> Unit {
    Unit {
        id,
        unit_type: UnitType::Light,
        owner_id: owner,
        hp: 0,
    }
}

/// Drives a fresh match through readiness and one resolved turn.
fn after_one_turn() -> MatchState {
    let mut st = MatchState::new();
    st.handle_ready(A, false, GID);
    st.handle_ready(B, false, GID);
    let (fx, ended) = st.handle_turn(
        A,
        0,
        vec![TurnAction::PlayUnit {
            unit: light(11, A),
        }],
        GID,
        MAX_TURNS,
    );
    assert!(fx.is_empty());
    assert!(!ended);
    let (fx, ended) = st.handle_turn(B, 0, vec![TurnAction::Pass], GID, MAX_TURNS);
    assert_eq!(fx.len(), 3);
    assert!(!ended);
    st
}

#[test]
fn both_ready_broadcasts_game_start() {
    let mut st = MatchState::new();
    let fx = st.handle_ready(A, false, GID);
    assert!(fx.is_empty(), "one ready player starts nothing");
    let fx = st.handle_ready(B, false, GID);
    assert_eq!(fx.len(), 2);
    for (e, expected_to) in fx.iter().zip([A, B]) {
        match e {
            Effect::Publish {
                to,
                msg: ServerMsg::GameStart { game_id, turn },
            } => {
                assert_eq!(*to, expected_to);
                assert_eq!(*game_id, GID);
                assert_eq!(*turn, 0);
            }
            _ => panic!("expected a GameStart publish"),
        }
    }
}

#[test]
fn duplicate_ready_does_not_take_second_seat() {
    let mut st = MatchState::new();
    st.handle_ready(A, false, GID);
    let fx = st.handle_ready(A, false, GID);
    assert!(fx.is_empty(), "the duplicate must not complete the pair");
    let fx = st.handle_ready(B, false, GID);
    assert_eq!(fx.len(), 2, "the second player still takes seat 2");
}

#[test]
fn matched_turn_numbers_fire_resolution() {
    let st = after_one_turn();
    assert_eq!(st.turn, 1, "the turn counter advanced");
    assert!(st.last_turn_result.is_some(), "the outcome is retained");
    assert_eq!(st.pool_p1.energy, 4, "the spawn was paid for");
    assert_eq!(st.units_p1.len(), 1);
}

#[test]
fn turn_resolution_broadcasts_result_and_saves_snapshot() {
    let mut st = MatchState::new();
    st.handle_ready(A, false, GID);
    st.handle_ready(B, false, GID);
    st.handle_turn(
        A,
        0,
        vec![TurnAction::PlayUnit {
            unit: light(11, A),
        }],
        GID,
        MAX_TURNS,
    );
    let (fx, _) = st.handle_turn(B, 0, vec![TurnAction::Pass], GID, MAX_TURNS);
    assert_eq!(fx.len(), 3);
    for (e, expected_to) in fx.iter().take(2).zip([A, B]) {
        match e {
            Effect::Publish {
                to,
                msg: ServerMsg::TurnResult { game_id, turn, result },
            } => {
                assert_eq!(*to, expected_to);
                assert_eq!(*game_id, GID);
                assert_eq!(*turn, 0);
                assert_eq!(result.spawned.len(), 1);
            }
            _ => panic!("expected a TurnResult publish"),
        }
    }
    assert!(matches!(fx[2], Effect::SaveSnapshot));
}

#[test]
fn mismatched_turn_numbers_do_not_fire() {
    let mut st = MatchState::new();
    st.handle_ready(A, false, GID);
    st.handle_ready(B, false, GID);
    let (fx, _) = st.handle_turn(A, 0, vec![TurnAction::Pass], GID, MAX_TURNS);
    assert!(fx.is_empty());
    let (fx, _) = st.handle_turn(B, 1, vec![TurnAction::Pass], GID, MAX_TURNS);
    assert!(fx.is_empty(), "turn numbers differ, nothing resolves");
}

#[test]
fn unknown_sender_turn_is_ignored() {
    let mut st = MatchState::new();
    st.handle_ready(A, false, GID);
    st.handle_ready(B, false, GID);
    let (fx, ended) = st.handle_turn(0xC, 0, vec![TurnAction::Pass], GID, MAX_TURNS);
    assert!(fx.is_empty());
    assert!(!ended);
}

#[test]
fn reaching_max_turns_ends_the_match() {
    let mut st = MatchState::new();
    st.handle_ready(A, false, GID);
    st.handle_ready(B, false, GID);
    st.handle_turn(A, 0, vec![TurnAction::Pass], GID, 1);
    let (_, ended) = st.handle_turn(B, 0, vec![TurnAction::Pass], GID, 1);
    assert!(ended, "one resolved turn reaches a max of one");
}

#[test]
fn resume_replays_last_outcome_exactly_once() {
    let mut st = after_one_turn();
    // A drops; B (still connected) is not enough for a broadcast when A
    // later resumes nothing — here A itself resumes while B stays ready,
    // so first check the lone-replay shape: A disconnected, then B resumes.
    st.handle_disconnected(A, 1_000);
    let fx = st.handle_ready(B, true, GID);
    assert_eq!(fx.len(), 1, "exactly one re-delivery, no broadcast");
    match &fx[0] {
        Effect::Publish {
            to,
            msg: ServerMsg::TurnResult { game_id, turn, result },
        } => {
            assert_eq!(*to, B);
            assert_eq!(*game_id, GID);
            assert_eq!(*turn, 0);
            assert_eq!(result.spawned.len(), 1);
        }
        _ => panic!("expected the last TurnResult replayed to the resumer"),
    }
}

#[test]
fn resume_after_both_ready_rebroadcasts() {
    let mut st = after_one_turn();
    st.handle_disconnected(B, 1_000);
    // B resumes while A is still ready: replay to B, then GameStart and the
    // last outcome to both.
    let fx = st.handle_ready(B, true, GID);
    assert_eq!(fx.len(), 5);
    assert!(matches!(
        fx[0],
        Effect::Publish {
            to: B,
            msg: ServerMsg::TurnResult { .. }
        }
    ));
    assert!(matches!(
        fx[1],
        Effect::Publish {
            to: A,
            msg: ServerMsg::GameStart { .. }
        }
    ));
    assert!(matches!(
        fx[2],
        Effect::Publish {
            to: B,
            msg: ServerMsg::GameStart { .. }
        }
    ));
}

#[test]
fn grace_timeout_forfeits_to_the_other_player() {
    let mut st = after_one_turn();
    st.handle_disconnected(B, 1_000);
    // Before the grace duration: nothing.
    assert!(st.grace_expired(120_999, 120_000).is_none());
    // At or past it: A wins by forfeit.
    let (winner, loser) = st.grace_expired(121_000, 120_000).expect("forfeit due");
    assert_eq!((winner, loser), (A, B));

    let fx = finish_forfeit_effects(GID, winner, loser, 1500, 1500);
    assert_eq!(fx.len(), 6);
    let mut game_over_a = 0;
    let mut game_over_b = 0;
    let mut deletes = 0;
    for e in &fx {
        match e {
            Effect::Publish {
                to,
                msg: ServerMsg::GameOver { game_id, winner },
            } => {
                assert_eq!(*game_id, GID);
                assert_eq!(*winner, Some(A));
                if *to == A {
                    game_over_a += 1;
                }
                if *to == B {
                    game_over_b += 1;
                }
            }
            Effect::DeleteSnapshot => deletes += 1,
            _ => {}
        }
    }
    assert_eq!(game_over_a, 1, "exactly one GameOver to the winner");
    assert_eq!(game_over_b, 1, "exactly one GameOver to the loser");
    assert_eq!(deletes, 1, "the snapshot is deleted");
    assert!(matches!(
        fx[0],
        Effect::ApplyRatingDelta {
            player: A,
            delta: 16
        }
    ));
    assert!(matches!(
        fx[1],
        Effect::ApplyRatingDelta {
            player: B,
            delta: -16
        }
    ));
}

#[test]
fn normal_completion_rates_and_notifies_once() {
    // A keeps a unit, B's roster is empty: A wins.
    let units_a = vec![light(11, A)];
    let units_b: Vec<Unit> = Vec::new();
    let fx = finish_game_effects(GID, &units_a, &units_b, Some(A), Some(B), 1500, 1500);
    assert_eq!(fx.len(), 6);
    assert!(matches!(
        fx[2],
        Effect::PersistFinished {
            winner: Some(A),
            delta_p1: 16,
            delta_p2: -16
        }
    ));
    assert!(matches!(fx[5], Effect::DeleteSnapshot));
}

#[test]
fn finish_without_both_players_only_cleans_up() {
    let units: Vec<Unit> = Vec::new();
    let fx = finish_game_effects(GID, &units, &units, Some(A), None, 1500, 1500);
    assert_eq!(fx.len(), 1);
    assert!(matches!(fx[0], Effect::DeleteSnapshot));
}

#[test]
fn snapshot_round_trip_restores_the_match() {
    let st = after_one_turn();
    let snap = st.to_snapshot();
    assert!(snap.is_well_formed());
    let restored = MatchState::restore(snap);
    assert_eq!(restored.turn, st.turn);
    assert_eq!(restored.p1, st.p1);
    assert_eq!(restored.p2, st.p2);
    assert_eq!(restored.ready_p1, st.ready_p1);
    assert_eq!(restored.ready_p2, st.ready_p2);
    assert_eq!(restored.pool_p1, st.pool_p1);
    assert_eq!(restored.pool_p2, st.pool_p2);
    assert_eq!(restored.units_p1, st.units_p1);
    assert_eq!(restored.units_p2, st.units_p2);
    assert!(restored.dc_since_p1.is_none() && restored.dc_since_p2.is_none());
    match (&restored.last_turn_result, &st.last_turn_result) {
        (
            Some(ServerMsg::TurnResult {
                game_id: g1,
                turn: t1,
                result: r1,
            }),
            Some(ServerMsg::TurnResult {
                game_id: g2,
                turn: t2,
                result: r2,
            }),
        ) => {
            assert_eq!(g1, g2);
            assert_eq!(t1, t2);
            assert_eq!(r1.applied, r2.applied);
            assert_eq!(r1.spawned, r2.spawned);
            assert_eq!(r1.destroyed, r2.destroyed);
        }
        _ => panic!("both snapshots should retain the last turn result"),
    }
}
