//! Deterministic turn resolution: a pure function from both players'
//! submitted action batches and the current battle state to a
//! [`CombatResult`], mutating pools and rosters in place.
//!
//! The whole resolution is pinned to the mathematical model
//! [`resolve_spec`]: spawn pass (side 1 then side 2, submission order within
//! a side), then every attack from both sides in ascending attacker-id order
//! (a total order independent of arrival), then the pass actions.

use vstd::prelude::*;

use crate::game::types::{ResourcePool, TurnAction, Unit};

verus! {

/// Per-turn outcome sent to clients.
#[derive(Debug)]
pub struct CombatResult {
    /// All validated actions, in resolution order.
    pub applied: Vec<TurnAction>,
    /// Units entering play this turn.
    pub spawned: Vec<Unit>,
    /// Ids of units killed this turn.
    pub destroyed: Vec<u128>,
}

// ---------------------------------------------------------------------------
// Spawn pass model
// ---------------------------------------------------------------------------

/// State threaded through one side's spawn pass.
pub struct SpawnState {
    pub pool: ResourcePool,
    pub field: Seq<Unit>,
    pub spawned: Seq<Unit>,
    pub applied: Seq<TurnAction>,
}

/// One spawn step: a `PlayUnit` the pool can afford is paid for, enters the
/// field with the archetype's starting hit-points, and is recorded as spawned
/// and applied; an unaffordable spawn is dropped silently; any other action
/// is ignored by this pass.
pub open spec fn spawn_one(st: SpawnState, a: TurnAction) -> SpawnState {
    match a {
        TurnAction::PlayUnit { unit } => {
            let cost = unit.unit_type.spec_cost();
            if st.pool.spec_can_pay(cost) {
                let entering = Unit {
                    id: unit.id,
                    unit_type: unit.unit_type,
                    owner_id: unit.owner_id,
                    hp: unit.unit_type.spec_stats().hp,
                };
                SpawnState {
                    pool: st.pool.spec_pay(cost),
                    field: st.field.push(entering),
                    spawned: st.spawned.push(entering),
                    applied: st.applied.push(a),
                }
            } else {
                st
            }
        },
        _ => st,
    }
}

/// Spawn steps folded over a batch, in submission order.
pub open spec fn spawn_all(st: SpawnState, actions: Seq<TurnAction>) -> SpawnState
    decreases actions.len(),
{
    if actions.len() == 0 {
        st
    } else {
        spawn_one(spawn_all(st, actions.drop_last()), actions.last())
    }
}

// ---------------------------------------------------------------------------
// Attack collection and ordering
// ---------------------------------------------------------------------------

pub open spec fn is_attack(a: TurnAction) -> bool {
    a matches TurnAction::Attack { .. }
}

/// Sort key for simultaneous-attack ordering: the attacker id.
pub open spec fn attacker_of(a: TurnAction) -> u128 {
    match a {
        TurnAction::Attack { attacker_id, .. } => attacker_id,
        _ => 0,
    }
}

/// The attack actions of a batch, in submission order.
pub open spec fn attacks_of(s: Seq<TurnAction>) -> Seq<TurnAction>
    decreases s.len(),
{
    if s.len() == 0 {
        Seq::empty()
    } else if is_attack(s.last()) {
        attacks_of(s.drop_last()).push(s.last())
    } else {
        attacks_of(s.drop_last())
    }
}

/// The `Pass` actions of a batch, in submission order.
pub open spec fn passes_of(s: Seq<TurnAction>) -> Seq<TurnAction>
    decreases s.len(),
{
    if s.len() == 0 {
        Seq::empty()
    } else if (s.last() matches TurnAction::Pass) {
        passes_of(s.drop_last()).push(s.last())
    } else {
        passes_of(s.drop_last())
    }
}

/// Stable insertion into a sequence sorted by attacker id: the new element
/// lands after every element whose key is less than or equal to its own.
pub open spec fn sorted_insert(s: Seq<TurnAction>, a: TurnAction) -> Seq<TurnAction>
    decreases s.len(),
{
    if s.len() == 0 {
        seq![a]
    } else if attacker_of(s.last()) <= attacker_of(a) {
        s.push(a)
    } else {
        sorted_insert(s.drop_last(), a).push(s.last())
    }
}

/// Stable insertion sort by attacker id: a total, deterministic order that
/// keeps submission order among equal attacker ids.
pub open spec fn sort_by_attacker(s: Seq<TurnAction>) -> Seq<TurnAction>
    decreases s.len(),
{
    if s.len() == 0 {
        Seq::empty()
    } else {
        sorted_insert(sort_by_attacker(s.drop_last()), s.last())
    }
}

// ---------------------------------------------------------------------------
// Attack pass model
// ---------------------------------------------------------------------------

/// State threaded through the attack pass.
pub struct BattleState {
    pub units1: Seq<Unit>,
    pub units2: Seq<Unit>,
    pub applied: Seq<TurnAction>,
    pub destroyed: Seq<u128>,
}

/// Index of the first unit with the given id, or -1 if absent.
pub open spec fn first_index(s: Seq<Unit>, id: u128) -> int
    decreases s.len(),
{
    if s.len() == 0 {
        -1
    } else if s[0].id == id {
        0
    } else {
        let r = first_index(s.drop_first(), id);
        if r < 0 {
            -1
        } else {
            r + 1
        }
    }
}

/// One attack resolved against one roster: the defender is removed if the
/// attacker's power covers its hit-points, otherwise its hit-points shrink
/// by the power; either way the action counts as applied.
pub open spec fn strike(
    st: BattleState,
    a: TurnAction,
    attacker: Unit,
    defender_side_1: bool,
) -> BattleState {
    let power = attacker.unit_type.spec_stats().atk;
    let defenders = if defender_side_1 {
        st.units1
    } else {
        st.units2
    };
    let j = first_index(defenders, match a {
        TurnAction::Attack { defender_id, .. } => defender_id,
        _ => 0,
    });
    if j >= 0 {
        let defender = defenders[j];
        let after = if power >= defender.hp {
            defenders.remove(j)
        } else {
            defenders.update(j, Unit {
                id: defender.id,
                unit_type: defender.unit_type,
                owner_id: defender.owner_id,
                hp: (defender.hp - power) as u32,
            })
        };
        BattleState {
            units1: if defender_side_1 {
                after
            } else {
                st.units1
            },
            units2: if defender_side_1 {
                st.units2
            } else {
                after
            },
            applied: st.applied.push(a),
            destroyed: if power >= defender.hp {
                st.destroyed.push(defender.id)
            } else {
                st.destroyed
            },
        }
    } else {
        st
    }
}

/// One attack action: the attacker is looked up on side 1 first, then on
/// side 2; an attacker no longer on either roster (for example one removed
/// earlier in this same pass) makes the action a no-op.
pub open spec fn attack_one(st: BattleState, a: TurnAction) -> BattleState {
    match a {
        TurnAction::Attack { attacker_id, defender_id } => {
            let i1 = first_index(st.units1, attacker_id);
            if i1 >= 0 {
                strike(st, a, st.units1[i1], false)
            } else {
                let i2 = first_index(st.units2, attacker_id);
                if i2 >= 0 {
                    strike(st, a, st.units2[i2], true)
                } else {
                    st
                }
            }
        },
        _ => st,
    }
}

/// Attack steps folded over the sorted attack list.
pub open spec fn attack_all(st: BattleState, attacks: Seq<TurnAction>) -> BattleState
    decreases attacks.len(),
{
    if attacks.len() == 0 {
        st
    } else {
        attack_one(attack_all(st, attacks.drop_last()), attacks.last())
    }
}

// ---------------------------------------------------------------------------
// Whole-turn model
// ---------------------------------------------------------------------------

/// Everything one resolved turn produces.
pub struct Resolution {
    pub pool1: ResourcePool,
    pub pool2: ResourcePool,
    pub units1: Seq<Unit>,
    pub units2: Seq<Unit>,
    pub applied: Seq<TurnAction>,
    pub spawned: Seq<Unit>,
    pub destroyed: Seq<u128>,
}

/// The deterministic meaning of one turn: spawns for side 1 then side 2,
/// all attacks in ascending attacker-id order, then the pass actions.
pub open spec fn resolve_spec(
    a1: Seq<TurnAction>,
    a2: Seq<TurnAction>,
    pool1: ResourcePool,
    pool2: ResourcePool,
    u1: Seq<Unit>,
    u2: Seq<Unit>,
) -> Resolution {
    let s1 = spawn_all(
        SpawnState { pool: pool1, field: u1, spawned: Seq::empty(), applied: Seq::empty() },
        a1,
    );
    let s2 = spawn_all(
        SpawnState { pool: pool2, field: u2, spawned: s1.spawned, applied: s1.applied },
        a2,
    );
    let attacks = sort_by_attacker(attacks_of(a1 + a2));
    let b = attack_all(
        BattleState { units1: s1.field, units2: s2.field, applied: s2.applied, destroyed: Seq::empty() },
        attacks,
    );
    Resolution {
        pool1: s1.pool,
        pool2: s2.pool,
        units1: b.units1,
        units2: b.units2,
        applied: b.applied + passes_of(a1) + passes_of(a2),
        spawned: s2.spawned,
        destroyed: b.destroyed,
    }
}

// ---------------------------------------------------------------------------
// Executable resolution
// ---------------------------------------------------------------------------

/// Runs one side's spawn pass, paying costs and collecting spawned units and
/// applied actions.
fn spawn_pass(
    actions: &Vec<TurnAction>,
    pool: &mut ResourcePool,
    field: &mut Vec<Unit>,
    spawned: &mut Vec<Unit>,
    applied: &mut Vec<TurnAction>,
)
    ensures
        ({
            let st = spawn_all(
                SpawnState {
                    pool: *old(pool),
                    field: old(field)@,
                    spawned: old(spawned)@,
                    applied: old(applied)@,
                },
                actions@,
            );
            *final(pool) == st.pool && final(field)@ == st.field && final(spawned)@ == st.spawned
                && final(applied)@ == st.applied
        }),
{
    let ghost init = SpawnState {
        pool: *pool,
        field: field@,
        spawned: spawned@,
        applied: applied@,
    };
    let n = actions.len();
    let mut i: usize = 0;
    while i < n
        invariant
            i <= n,
            n == actions@.len(),
            ({
                let st = spawn_all(init, actions@.subrange(0, i as int));
                *pool == st.pool && field@ == st.field && spawned@ == st.spawned && applied@
                    == st.applied
            }),
        decreases n - i,
    {
        proof {
            assert(actions@.subrange(0, i + 1).drop_last() =~= actions@.subrange(0, i as int));
            assert(actions@.subrange(0, i + 1).last() == actions@[i as int]);
        }
        let a = actions[i];
        if let TurnAction::PlayUnit { unit } = a {
            let cost = unit.unit_type.cost();
            if pool.can_pay(cost) {
                pool.pay(cost);
                let entering = Unit {
                    id: unit.id,
                    unit_type: unit.unit_type,
                    owner_id: unit.owner_id,
                    hp: unit.unit_type.stats().hp,
                };
                field.push(entering);
                spawned.push(entering);
                applied.push(a);
            }
        }
        i = i + 1;
    }
    proof {
        assert(actions@.subrange(0, n as int) =~= actions@);
    }
}

/// Collects the attack actions of one batch, in submission order, onto `out`.
fn collect_attacks(actions: &Vec<TurnAction>, out: &mut Vec<TurnAction>)
    ensures
        final(out)@ == old(out)@ + attacks_of(actions@),
{
    let ghost init = out@;
    let n = actions.len();
    let mut i: usize = 0;
    while i < n
        invariant
            i <= n,
            n == actions@.len(),
            out@ == init + attacks_of(actions@.subrange(0, i as int)),
        decreases n - i,
    {
        proof {
            assert(actions@.subrange(0, i + 1).drop_last() =~= actions@.subrange(0, i as int));
            assert(actions@.subrange(0, i + 1).last() == actions@[i as int]);
        }
        let a = actions[i];
        if let TurnAction::Attack { .. } = a {
            out.push(a);
        }
        proof {
            assert(out@ =~= init + attacks_of(actions@.subrange(0, i + 1)));
        }
        i = i + 1;
    }
    proof {
        assert(actions@.subrange(0, n as int) =~= actions@);
    }
}

/// `sorted_insert` placed at the boundary position the executable search
/// finds: everything at or after `idx` has a strictly greater key.
proof fn lemma_sorted_insert_at(s: Seq<TurnAction>, a: TurnAction, idx: int)
    requires
        0 <= idx <= s.len(),
        idx == 0 || attacker_of(s[idx - 1]) <= attacker_of(a),
        forall|j: int| idx <= j < s.len() ==> attacker_of(s[j]) > attacker_of(a),
    ensures
        sorted_insert(s, a) == s.subrange(0, idx).push(a) + s.subrange(idx, s.len() as int),
    decreases s.len(),
{
    if s.len() == 0 {
        assert(sorted_insert(s, a) =~= s.subrange(0, idx).push(a) + s.subrange(idx, 0));
    } else if attacker_of(s.last()) <= attacker_of(a) {
        assert(idx == s.len());
        assert(sorted_insert(s, a) =~= s.subrange(0, idx).push(a) + s.subrange(idx, s.len() as int));
    } else {
        assert(idx < s.len());
        let d = s.drop_last();
        lemma_sorted_insert_at(d, a, idx);
        assert(d.subrange(0, idx) =~= s.subrange(0, idx));
        assert(sorted_insert(s, a) == sorted_insert(d, a).push(s.last()));
        assert((d.subrange(0, idx).push(a) + d.subrange(idx, d.len() as int)).push(s.last()) =~= s
            .subrange(0, idx).push(a) + s.subrange(idx, s.len() as int));
    }
}

/// Inserts one attack into a vector kept in `sorted_insert` order.
fn insert_by_attacker(out: &mut Vec<TurnAction>, a: TurnAction)
    ensures
        final(out)@ == sorted_insert(old(out)@, a),
{
    let ghost s = out@;
    let key = match a {
        TurnAction::Attack { attacker_id, .. } => attacker_id,
        _ => 0,
    };
    let mut idx: usize = out.len();
    while idx > 0 && attack_key(&out[idx - 1]) > key
        invariant
            idx <= s.len(),
            s == out@,
            key == attacker_of(a),
            forall|j: int| idx <= j < s.len() ==> attacker_of(s[j]) > attacker_of(a),
        decreases idx,
    {
        idx = idx - 1;
    }
    proof {
        lemma_sorted_insert_at(s, a, idx as int);
    }
    out.insert(idx, a);
    proof {
        assert(out@ =~= s.subrange(0, idx as int).push(a) + s.subrange(idx as int, s.len() as int));
    }
}

/// The sort key of an attack action; non-attacks sort first.
fn attack_key(a: &TurnAction) -> (k: u128)
    ensures
        k == attacker_of(*a),
{
    match a {
        TurnAction::Attack { attacker_id, .. } => *attacker_id,
        _ => 0,
    }
}

/// Sorts the collected attacks by attacker id, stably.
fn sort_attacks(v: Vec<TurnAction>) -> (r: Vec<TurnAction>)
    ensures
        r@ == sort_by_attacker(v@),
{
    let mut out: Vec<TurnAction> = Vec::new();
    let n = v.len();
    let mut i: usize = 0;
    while i < n
        invariant
            i <= n,
            n == v@.len(),
            out@ == sort_by_attacker(v@.subrange(0, i as int)),
        decreases n - i,
    {
        proof {
            assert(v@.subrange(0, i + 1).drop_last() =~= v@.subrange(0, i as int));
            assert(v@.subrange(0, i + 1).last() == v@[i as int]);
        }
        insert_by_attacker(&mut out, v[i]);
        i = i + 1;
    }
    proof {
        assert(v@.subrange(0, n as int) =~= v@);
    }
    out
}

/// A unit at position `i` whose id no earlier unit carries is the first
/// match.
proof fn lemma_first_index_of(s: Seq<Unit>, id: u128, i: int)
    requires
        0 <= i < s.len(),
        s[i].id == id,
        forall|j: int| 0 <= j < i ==> s[j].id != id,
    ensures
        first_index(s, id) == i,
    decreases s.len(),
{
    if i > 0 {
        assert forall|j: int| 0 <= j < i - 1 implies s.drop_first()[j].id != id by {
            assert(s.drop_first()[j] == s[j + 1]);
        }
        assert(s.drop_first()[i - 1] == s[i]);
        lemma_first_index_of(s.drop_first(), id, i - 1);
    }
}

/// No unit carries the id, so there is no first match.
proof fn lemma_first_index_none(s: Seq<Unit>, id: u128)
    requires
        forall|j: int| 0 <= j < s.len() ==> s[j].id != id,
    ensures
        first_index(s, id) == -1,
    decreases s.len(),
{
    if s.len() > 0 {
        assert forall|j: int| 0 <= j < s.len() - 1 implies s.drop_first()[j].id != id by {
            assert(s.drop_first()[j] == s[j + 1]);
        }
        lemma_first_index_none(s.drop_first(), id);
    }
}

/// Linear scan for the first unit with the given id.
fn find_unit(units: &Vec<Unit>, id: u128) -> (r: Option<usize>)
    ensures
        match r {
            Option::Some(i) => i < units@.len() && first_index(units@, id) == i as int,
            Option::None => first_index(units@, id) == -1,
        },
{
    let n = units.len();
    let mut i: usize = 0;
    while i < n
        invariant
            i <= n,
            n == units@.len(),
            forall|j: int| 0 <= j < i ==> units@[j].id != id,
        decreases n - i,
    {
        if units[i].id == id {
            proof {
                lemma_first_index_of(units@, id, i as int);
            }
            return Option::Some(i);
        }
        i = i + 1;
    }
    proof {
        lemma_first_index_none(units@, id);
    }
    Option::None
}

/// Applies the sorted attack list. An attacker is searched on side 1 first,
/// then side 2; the defender must stand on the opposite side's current
/// roster, else the action is skipped.
fn apply_attacks(
    attacks: &Vec<TurnAction>,
    units1: &mut Vec<Unit>,
    units2: &mut Vec<Unit>,
    applied: &mut Vec<TurnAction>,
    destroyed: &mut Vec<u128>,
)
    ensures
        ({
            let st = attack_all(
                BattleState {
                    units1: old(units1)@,
                    units2: old(units2)@,
                    applied: old(applied)@,
                    destroyed: old(destroyed)@,
                },
                attacks@,
            );
            final(units1)@ == st.units1 && final(units2)@ == st.units2 && final(applied)@
                == st.applied && final(destroyed)@ == st.destroyed
        }),
{
    let ghost init = BattleState {
        units1: units1@,
        units2: units2@,
        applied: applied@,
        destroyed: destroyed@,
    };
    let n = attacks.len();
    let mut i: usize = 0;
    while i < n
        invariant
            i <= n,
            n == attacks@.len(),
            ({
                let st = attack_all(init, attacks@.subrange(0, i as int));
                units1@ == st.units1 && units2@ == st.units2 && applied@ == st.applied
                    && destroyed@ == st.destroyed
            }),
        decreases n - i,
    {
        proof {
            assert(attacks@.subrange(0, i + 1).drop_last() =~= attacks@.subrange(0, i as int));
            assert(attacks@.subrange(0, i + 1).last() == attacks@[i as int]);
        }
        let a = attacks[i];
        if let TurnAction::Attack { attacker_id, defender_id } = a {
            match find_unit(units1, attacker_id) {
                Option::Some(ai) => {
                    // Attacker on side 1: the defender must be on side 2.
                    let power = units1[ai].unit_type.stats().atk;
                    if let Option::Some(dj) = find_unit(units2, defender_id) {
                        let defender = units2[dj];
                        if power >= defender.hp {
                            destroyed.push(defender.id);
                            units2.remove(dj);
                        } else {
                            units2.set(dj, Unit {
                                id: defender.id,
                                unit_type: defender.unit_type,
                                owner_id: defender.owner_id,
                                hp: defender.hp - power,
                            });
                        }
                        applied.push(a);
                    }
                },
                Option::None => {
                    if let Option::Some(ai) = find_unit(units2, attacker_id) {
                        // Attacker on side 2: the defender must be on side 1.
                        let power = units2[ai].unit_type.stats().atk;
                        if let Option::Some(dj) = find_unit(units1, defender_id) {
                            let defender = units1[dj];
                            if power >= defender.hp {
                                destroyed.push(defender.id);
                                units1.remove(dj);
                            } else {
                                units1.set(dj, Unit {
                                    id: defender.id,
                                    unit_type: defender.unit_type,
                                    owner_id: defender.owner_id,
                                    hp: defender.hp - power,
                                });
                            }
                            applied.push(a);
                        }
                    }
                },
            }
        }
        i = i + 1;
    }
    proof {
        assert(attacks@.subrange(0, n as int) =~= attacks@);
    }
}

/// Appends the `Pass` actions of one batch to the applied list; passes are
/// always valid and have no side effect.
fn record_passes(actions: &Vec<TurnAction>, applied: &mut Vec<TurnAction>)
    ensures
        final(applied)@ == old(applied)@ + passes_of(actions@),
{
    let ghost init = applied@;
    let n = actions.len();
    let mut i: usize = 0;
    while i < n
        invariant
            i <= n,
            n == actions@.len(),
            applied@ == init + passes_of(actions@.subrange(0, i as int)),
        decreases n - i,
    {
        proof {
            assert(actions@.subrange(0, i + 1).drop_last() =~= actions@.subrange(0, i as int));
            assert(actions@.subrange(0, i + 1).last() == actions@[i as int]);
        }
        let a = actions[i];
        if let TurnAction::Pass = a {
            applied.push(a);
        }
        proof {
            assert(applied@ =~= init + passes_of(actions@.subrange(0, i + 1)));
        }
        i = i + 1;
    }
    proof {
        assert(actions@.subrange(0, n as int) =~= actions@);
    }
}

/// Filtering attacks out of a concatenation filters each part in order.
proof fn lemma_attacks_of_concat(a: Seq<TurnAction>, b: Seq<TurnAction>)
    ensures
        attacks_of(a + b) == attacks_of(a) + attacks_of(b),
    decreases b.len(),
{
    if b.len() == 0 {
        assert(a + b =~= a);
        assert(attacks_of(a) + attacks_of(b) =~= attacks_of(a));
    } else {
        lemma_attacks_of_concat(a, b.drop_last());
        assert((a + b).drop_last() =~= a + b.drop_last());
        assert((a + b).last() == b.last());
        if is_attack(b.last()) {
            assert(attacks_of(a) + attacks_of(b) =~= (attacks_of(a) + attacks_of(
                b.drop_last(),
            )).push(b.last()));
        }
    }
}

/// Resolves one full turn deterministically, mutating both pools and both
/// rosters in place. The result, the final pools, and the final rosters are
/// exactly those of [`resolve_spec`] on the inputs; in particular, two calls
/// on identical inputs agree in every component.
pub fn resolve_turn(
    actions_p1: Vec<TurnAction>,
    actions_p2: Vec<TurnAction>,
    pool_p1: &mut ResourcePool,
    pool_p2: &mut ResourcePool,
    units_p1: &mut Vec<Unit>,
    units_p2: &mut Vec<Unit>,
) -> (result: CombatResult)
    ensures
        ({
            let r = resolve_spec(
                actions_p1@,
                actions_p2@,
                *old(pool_p1),
                *old(pool_p2),
                old(units_p1)@,
                old(units_p2)@,
            );
            *final(pool_p1) == r.pool1 && *final(pool_p2) == r.pool2 && final(units_p1)@
                == r.units1 && final(units_p2)@ == r.units2 && result.applied@ == r.applied
                && result.spawned@ == r.spawned && result.destroyed@ == r.destroyed
        }),
{
    let mut applied: Vec<TurnAction> = Vec::new();
    let mut spawned: Vec<Unit> = Vec::new();
    let mut destroyed: Vec<u128> = Vec::new();

    // 1. Spawn units (pay cost now), side 1 then side 2.
    spawn_pass(&actions_p1, pool_p1, units_p1, &mut spawned, &mut applied);
    spawn_pass(&actions_p2, pool_p2, units_p2, &mut spawned, &mut applied);

    // 2. Collect and sort attacks for a deterministic order.
    let mut all_attacks: Vec<TurnAction> = Vec::new();
    collect_attacks(&actions_p1, &mut all_attacks);
    collect_attacks(&actions_p2, &mut all_attacks);
    proof {
        lemma_attacks_of_concat(actions_p1@, actions_p2@);
        assert(all_attacks@ =~= attacks_of(actions_p1@ + actions_p2@));
    }
    let all_attacks = sort_attacks(all_attacks);

    // 3. Apply attacks.
    apply_attacks(&all_attacks, units_p1, units_p2, &mut applied, &mut destroyed);

    // 4. Pass actions are always valid.
    record_passes(&actions_p1, &mut applied);
    record_passes(&actions_p2, &mut applied);

    CombatResult { applied, spawned, destroyed }
}

// ---------------------------------------------------------------------------
// Laws of turn resolution
// ---------------------------------------------------------------------------

/// The defender an attack action names; non-attacks name no one.
pub open spec fn defender_of(a: TurnAction) -> u128 {
    match a {
        TurnAction::Attack { defender_id, .. } => defender_id,
        _ => 0,
    }
}

/// A non-negative first-match index is in range and lands on the id.
pub proof fn lemma_first_index_found(s: Seq<Unit>, id: u128)
    requires
        first_index(s, id) >= 0,
    ensures
        0 <= first_index(s, id) < s.len(),
        s[first_index(s, id)].id == id,
    decreases s.len(),
{
    if s.len() > 0 && s[0].id != id {
        lemma_first_index_found(s.drop_first(), id);
        assert(s.drop_first()[first_index(s.drop_first(), id)] == s[first_index(s, id)]);
    }
}

/// Determinism: resolution is a function of its inputs alone. Two
/// resolutions of componentwise identical action batches, pools, and rosters
/// agree on the produced outcome and on the resulting pools and rosters.
pub proof fn lemma_resolution_deterministic(
    a1: Seq<TurnAction>,
    a2: Seq<TurnAction>,
    pool1: ResourcePool,
    pool2: ResourcePool,
    u1: Seq<Unit>,
    u2: Seq<Unit>,
    b1: Seq<TurnAction>,
    b2: Seq<TurnAction>,
    q1: ResourcePool,
    q2: ResourcePool,
    v1: Seq<Unit>,
    v2: Seq<Unit>,
)
    requires
        a1 == b1,
        a2 == b2,
        pool1 == q1,
        pool2 == q2,
        u1 == v1,
        u2 == v2,
    ensures
        resolve_spec(a1, a2, pool1, pool2, u1, u2) == resolve_spec(b1, b2, q1, q2, v1, v2),
{
}

/// Affordability: a spawn whose cost exceeds the pool changes nothing — the
/// pool keeps its counters and the unit enters neither the roster nor the
/// spawned or applied lists.
pub proof fn lemma_unaffordable_spawn(st: SpawnState, unit: Unit)
    requires
        !st.pool.spec_can_pay(unit.unit_type.spec_cost()),
    ensures
        spawn_one(st, TurnAction::PlayUnit { unit }) == st,
{
}

/// Conservation on a lethal hit: when the attacker's power covers the
/// defender's hit-points, the defender leaves the roster exactly once and
/// its id is recorded as destroyed.
pub proof fn lemma_lethal_hit(st: BattleState, a: TurnAction, i: int, d: int)
    requires
        is_attack(a),
        i == first_index(st.units1, attacker_of(a)),
        i >= 0,
        d == first_index(st.units2, defender_of(a)),
        d >= 0,
        st.units1[i].unit_type.spec_stats().atk >= st.units2[d].hp,
    ensures
        attack_one(st, a).units1 == st.units1,
        attack_one(st, a).units2 == st.units2.remove(d),
        attack_one(st, a).destroyed == st.destroyed.push(st.units2[d].id),
        attack_one(st, a).applied == st.applied.push(a),
{
    lemma_first_index_found(st.units1, attacker_of(a));
    lemma_first_index_found(st.units2, defender_of(a));
}

/// Conservation on a non-lethal hit: the defender stays on the roster at the
/// same position with its hit-points reduced by the attacker's power, and
/// nothing is recorded as destroyed.
pub proof fn lemma_nonlethal_hit(st: BattleState, a: TurnAction, i: int, d: int)
    requires
        is_attack(a),
        i == first_index(st.units1, attacker_of(a)),
        i >= 0,
        d == first_index(st.units2, defender_of(a)),
        d >= 0,
        st.units1[i].unit_type.spec_stats().atk < st.units2[d].hp,
    ensures
        attack_one(st, a).units1 == st.units1,
        attack_one(st, a).units2.len() == st.units2.len(),
        attack_one(st, a).units2[d].id == st.units2[d].id,
        attack_one(st, a).units2[d].hp == st.units2[d].hp - st.units1[i].unit_type.spec_stats().atk,
        forall|k: int| 0 <= k < st.units2.len() && k != d ==> attack_one(st, a).units2[k]
            == st.units2[k],
        attack_one(st, a).destroyed == st.destroyed,
        attack_one(st, a).applied == st.applied.push(a),
{
    lemma_first_index_found(st.units1, attacker_of(a));
    lemma_first_index_found(st.units2, defender_of(a));
}

/// The deterministic order sorts a simultaneous pair by attacker id,
/// whichever order the two arrived in.
pub proof fn lemma_sort_orders_pair(first: TurnAction, second: TurnAction)
    requires
        attacker_of(first) < attacker_of(second),
    ensures
        sort_by_attacker(seq![second, first]) == seq![first, second],
        sort_by_attacker(seq![first, second]) == seq![first, second],
{
    let e = Seq::<TurnAction>::empty();
    assert(sort_by_attacker(e) == e);
    assert(seq![second, first].drop_last() =~= seq![second]);
    assert(seq![second].drop_last() =~= e);
    assert(seq![first, second].drop_last() =~= seq![first]);
    assert(seq![first].drop_last() =~= e);
    assert(seq![second].last() == second);
    assert(seq![first].last() == first);
    assert(seq![second, first].last() == first);
    assert(seq![first, second].last() == second);
    assert(sorted_insert(e, second) == seq![second]);
    assert(sorted_insert(e, first) == seq![first]);
    assert(sort_by_attacker(seq![second]) == seq![second]);
    assert(sort_by_attacker(seq![first]) == seq![first]);
    assert(sorted_insert(seq![second], first) =~= sorted_insert(e, first).push(second));
    assert(sorted_insert(seq![second], first) =~= seq![first, second]);
    assert(sorted_insert(seq![first], second) =~= seq![first].push(second));
    assert(sorted_insert(seq![first], second) =~= seq![first, second]);
    assert(sort_by_attacker(seq![second, first]) == sorted_insert(seq![second], first));
    assert(sort_by_attacker(seq![first, second]) == sorted_insert(seq![first], second));
}

/// Tie-break between two simultaneous attacks on the same defender from
/// different side-1 attackers: the attack whose attacker id sorts first is
/// applied first; when it kills the defender, the later attack finds no
/// defender and is not applied.
pub proof fn lemma_attack_tiebreak(st: BattleState, first: TurnAction, second: TurnAction, d: int)
    requires
        is_attack(first),
        is_attack(second),
        attacker_of(first) < attacker_of(second),
        defender_of(first) == defender_of(second),
        first_index(st.units1, attacker_of(first)) >= 0,
        first_index(st.units1, attacker_of(second)) >= 0,
        d == first_index(st.units2, defender_of(first)),
        d >= 0,
        forall|k: int| 0 <= k < st.units2.len() && k != d ==> st.units2[k].id
            != defender_of(first),
        st.units1[first_index(st.units1, attacker_of(first))].unit_type.spec_stats().atk
            >= st.units2[d].hp,
    ensures
        attack_all(st, seq![first, second]) == attack_one(st, first),
        attack_one(st, first).units2 == st.units2.remove(d),
        attack_one(st, first).destroyed == st.destroyed.push(st.units2[d].id),
        attack_one(st, first).applied == st.applied.push(first),
{
    lemma_first_index_found(st.units1, attacker_of(first));
    lemma_first_index_found(st.units1, attacker_of(second));
    lemma_first_index_found(st.units2, defender_of(first));
    let pair = seq![first, second];
    let e = Seq::<TurnAction>::empty();
    assert(pair.drop_last() =~= seq![first]);
    assert(seq![first].drop_last() =~= e);
    assert(pair.last() == second);
    assert(seq![first].last() == first);
    assert(attack_all(st, e) == st);
    assert(attack_all(st, seq![first]) == attack_one(st, first));
    let st1 = attack_one(st, first);
    assert(attack_all(st, pair) == attack_one(st1, second));
    assert(st1.units1 == st.units1);
    assert(st1.units2 == st.units2.remove(d));
    st.units2.remove_ensures(d);
    assert forall|k: int| 0 <= k < st1.units2.len() implies st1.units2[k].id
        != defender_of(second) by {
        if k < d {
            assert(st1.units2[k] == st.units2[k]);
        } else {
            assert(st1.units2[k] == st.units2[k + 1]);
        }
    }
    lemma_first_index_none(st1.units2, defender_of(second));
    assert(attack_one(st1, second) == st1);
}

} // verus!
