//! Properties of the turn resolution engine: determinism, affordability,
//! attack ordering, conservation on hits, and the starting-pool scenario.

use biotonic_server::game::logic::resolve_turn;
use biotonic_server::game::types::{ResourcePool, TurnAction, Unit, UnitType};

fn starter_pool() -> ResourcePool {
    ResourcePool {
        energy: 5,
        biomass: 5,
        gene_seeds: 2,
    }
}

fn unit(id: u128, unit_type: UnitType, owner_id: u128, hp: u32) -> Unit {
    Unit {
        id,
        unit_type,
        owner_id,
        hp,
    }
}

#[test]
fn resolution_is_deterministic() {
    let actions_a = vec![
        TurnAction::PlayUnit {
            unit: unit(7, UnitType::Ranged, 1, 0),
        },
        TurnAction::Attack {
            attacker_id: 3,
            defender_id: 4,
        },
        TurnAction::Pass,
    ];
    let actions_b = vec![TurnAction::Attack {
        attacker_id: 4,
        defender_id: 3,
    }];
    let roster_a = vec![unit(3, UnitType::Light, 1, 1)];
    let roster_b = vec![unit(4, UnitType::Heavy, 2, 3)];

    let mut pool_a1 = starter_pool();
    let mut pool_b1 = starter_pool();
    let mut units_a1 = roster_a.clone();
    let mut units_b1 = roster_b.clone();
    let r1 = resolve_turn(
        actions_a.clone(),
        actions_b.clone(),
        &mut pool_a1,
        &mut pool_b1,
        &mut units_a1,
        &mut units_b1,
    );

    let mut pool_a2 = starter_pool();
    let mut pool_b2 = starter_pool();
    let mut units_a2 = roster_a;
    let mut units_b2 = roster_b;
    let r2 = resolve_turn(
        actions_a,
        actions_b,
        &mut pool_a2,
        &mut pool_b2,
        &mut units_a2,
        &mut units_b2,
    );

    assert_eq!(r1.applied, r2.applied);
    assert_eq!(r1.spawned, r2.spawned);
    assert_eq!(r1.destroyed, r2.destroyed);
    assert_eq!(pool_a1, pool_a2);
    assert_eq!(pool_b1, pool_b2);
    assert_eq!(units_a1, units_a2);
    assert_eq!(units_b1, units_b2);
}

#[test]
fn unaffordable_spawn_leaves_pool_and_roster_unchanged() {
    let mut pool_a = ResourcePool {
        energy: 0,
        biomass: 0,
        gene_seeds: 0,
    };
    let mut pool_b = starter_pool();
    let mut units_a = Vec::new();
    let mut units_b = Vec::new();

    let res = resolve_turn(
        vec![TurnAction::PlayUnit {
            unit: unit(9, UnitType::Light, 1, 0),
        }],
        vec![],
        &mut pool_a,
        &mut pool_b,
        &mut units_a,
        &mut units_b,
    );

    // Dropped silently: not spawned, not applied, pool untouched.
    assert!(res.spawned.is_empty());
    assert!(res.applied.is_empty());
    assert!(units_a.is_empty());
    assert_eq!(
        pool_a,
        ResourcePool {
            energy: 0,
            biomass: 0,
            gene_seeds: 0,
        }
    );
}

#[test]
fn simultaneous_attacks_resolve_in_attacker_id_order() {
    // Two side-A attackers aim at the same defender; the batch lists the
    // higher id first, but the lower id strikes first and kills, so the
    // second attack finds no defender and is not applied.
    let first = unit(1, UnitType::Heavy, 10, 3); // atk 3
    let second = unit(2, UnitType::Heavy, 10, 3);
    let target = unit(5, UnitType::Light, 20, 1);

    let mut pool_a = starter_pool();
    let mut pool_b = starter_pool();
    let mut units_a = vec![first, second];
    let mut units_b = vec![target];

    let res = resolve_turn(
        vec![
            TurnAction::Attack {
                attacker_id: 2,
                defender_id: 5,
            },
            TurnAction::Attack {
                attacker_id: 1,
                defender_id: 5,
            },
        ],
        vec![],
        &mut pool_a,
        &mut pool_b,
        &mut units_a,
        &mut units_b,
    );

    assert_eq!(res.destroyed, vec![5u128]);
    assert_eq!(res.applied.len(), 1);
    assert!(matches!(
        res.applied[0],
        TurnAction::Attack { attacker_id: 1, .. }
    ));
    assert!(units_b.is_empty());
}

#[test]
fn lethal_hit_destroys_exactly_once() {
    let attacker = unit(1, UnitType::Heavy, 10, 3); // atk 3
    let defender = unit(2, UnitType::Heavy, 20, 3); // hp 3

    let mut pool_a = starter_pool();
    let mut pool_b = starter_pool();
    let mut units_a = vec![attacker];
    let mut units_b = vec![defender];

    let res = resolve_turn(
        vec![TurnAction::Attack {
            attacker_id: 1,
            defender_id: 2,
        }],
        vec![],
        &mut pool_a,
        &mut pool_b,
        &mut units_a,
        &mut units_b,
    );

    assert_eq!(res.destroyed, vec![2u128]);
    assert!(units_b.is_empty());
}

#[test]
fn nonlethal_hit_reduces_hit_points_and_keeps_defender() {
    let attacker = unit(1, UnitType::Light, 10, 1); // atk 1
    let defender = unit(2, UnitType::Heavy, 20, 3); // hp 3

    let mut pool_a = starter_pool();
    let mut pool_b = starter_pool();
    let mut units_a = vec![attacker];
    let mut units_b = vec![defender];

    let res = resolve_turn(
        vec![TurnAction::Attack {
            attacker_id: 1,
            defender_id: 2,
        }],
        vec![],
        &mut pool_a,
        &mut pool_b,
        &mut units_a,
        &mut units_b,
    );

    assert!(res.destroyed.is_empty());
    assert_eq!(units_b.len(), 1);
    assert_eq!(units_b[0].id, 2);
    assert_eq!(units_b[0].hp, 2); // 3 - 1
    assert_eq!(res.applied.len(), 1);
}

#[test]
fn starting_pool_scenario() {
    // Turn 0: A plays a Light, B passes.
    let mut pool_a = starter_pool();
    let mut pool_b = starter_pool();
    let mut units_a = Vec::new();
    let mut units_b = Vec::new();

    let light_a = unit(11, UnitType::Light, 1, 0);
    let r0 = resolve_turn(
        vec![TurnAction::PlayUnit { unit: light_a }],
        vec![TurnAction::Pass],
        &mut pool_a,
        &mut pool_b,
        &mut units_a,
        &mut units_b,
    );
    assert_eq!(pool_a.energy, 4);
    assert_eq!(r0.spawned.len(), 1);
    assert!(r0.destroyed.is_empty());

    // Turn 1: A plays a Heavy, B plays a Light.
    let heavy_a = unit(12, UnitType::Heavy, 1, 0);
    let light_b = unit(21, UnitType::Light, 2, 0);
    resolve_turn(
        vec![TurnAction::PlayUnit { unit: heavy_a }],
        vec![TurnAction::PlayUnit { unit: light_b }],
        &mut pool_a,
        &mut pool_b,
        &mut units_a,
        &mut units_b,
    );

    // Turn 2: A's Heavy (atk 3) attacks B's Light (hp 1).
    let r2 = resolve_turn(
        vec![TurnAction::Attack {
            attacker_id: 12,
            defender_id: 21,
        }],
        vec![TurnAction::Pass],
        &mut pool_a,
        &mut pool_b,
        &mut units_a,
        &mut units_b,
    );
    assert!(r2.destroyed.contains(&21));
    assert!(units_b.is_empty());
}
