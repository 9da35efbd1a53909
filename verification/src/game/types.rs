//! Core data model of a duel: resource pools, unit archetypes, units on the
//! battlefield, per-turn player intents, and the match life-cycle.
//!
//! Player and unit identifiers are opaque 128-bit values; the transport layer
//! renders them as canonical hex-dash strings at the boundary.

use vstd::prelude::*;

verus! {

/// Tracks a player's resource pools. All counters are non-negative and are
/// only reduced by paying a unit's cost during a spawn.
#[derive(Debug, Clone, Copy, PartialEq, Eq, Structural)]
pub struct ResourcePool {
    pub energy: u32,
    pub biomass: u32,
    pub gene_seeds: u32,
}

/// Four starting archetypes. Each maps to a fixed cost and fixed combat
/// stats; see [`UnitType::cost`] and [`UnitType::stats`].
#[derive(Debug, Clone, Copy, PartialEq, Eq, Structural)]
pub enum UnitType {
    Light,
    Ranged,
    Heavy,
    Seeder,
}

/// One unit on the battlefield.
#[derive(Debug, Clone, Copy, PartialEq, Eq, Structural)]
pub struct Unit {
    pub id: u128,
    pub unit_type: UnitType,
    pub owner_id: u128,
    /// Current hit-points; set from the archetype at spawn, afterwards it
    /// only decreases, and the unit is removed when it would reach zero.
    pub hp: u32,
}

/// Player intent for one turn. A player may submit several actions in one
/// batch.
#[derive(Debug, Clone, Copy, PartialEq, Eq, Structural)]
pub enum TurnAction {
    PlayUnit { unit: Unit },
    Attack { attacker_id: u128, defender_id: u128 },
    Pass,
}

/// Duel life-cycle.
#[derive(Debug, Clone, Copy, PartialEq, Eq, Structural)]
pub enum GameState {
    Lobby,
    InProgress,
    Finished,
}

/// Resource cost of a unit.
#[derive(Debug, Clone, Copy, PartialEq, Eq, Structural)]
pub struct ResourceCost {
    pub energy: u32,
    pub biomass: u32,
    pub gene_seeds: u32,
}

/// Combat stats of a unit.
#[derive(Debug, Clone, Copy, PartialEq, Eq, Structural)]
pub struct UnitStats {
    pub atk: u32,
    pub hp: u32,
}

impl UnitType {
    /// Fixed cost table: Light 1 energy, Ranged 2 energy + 1 biomass,
    /// Heavy 3 biomass, Seeder 1 energy + 1 gene seed.
    pub open spec fn spec_cost(self) -> ResourceCost {
        match self {
            UnitType::Light => ResourceCost { energy: 1, biomass: 0, gene_seeds: 0 },
            UnitType::Ranged => ResourceCost { energy: 2, biomass: 1, gene_seeds: 0 },
            UnitType::Heavy => ResourceCost { energy: 0, biomass: 3, gene_seeds: 0 },
            UnitType::Seeder => ResourceCost { energy: 1, biomass: 0, gene_seeds: 1 },
        }
    }

    /// Fixed stats table: Light 1/1, Ranged 2/1, Heavy 3/3, Seeder 0/2
    /// (attack / starting hit-points).
    pub open spec fn spec_stats(self) -> UnitStats {
        match self {
            UnitType::Light => UnitStats { atk: 1, hp: 1 },
            UnitType::Ranged => UnitStats { atk: 2, hp: 1 },
            UnitType::Heavy => UnitStats { atk: 3, hp: 3 },
            UnitType::Seeder => UnitStats { atk: 0, hp: 2 },
        }
    }

    pub fn cost(self) -> (c: ResourceCost)
        ensures
            c == self.spec_cost(),
    {
        match self {
            UnitType::Light => ResourceCost { energy: 1, biomass: 0, gene_seeds: 0 },
            UnitType::Ranged => ResourceCost { energy: 2, biomass: 1, gene_seeds: 0 },
            UnitType::Heavy => ResourceCost { energy: 0, biomass: 3, gene_seeds: 0 },
            UnitType::Seeder => ResourceCost { energy: 1, biomass: 0, gene_seeds: 1 },
        }
    }

    pub fn stats(self) -> (s: UnitStats)
        ensures
            s == self.spec_stats(),
    {
        match self {
            UnitType::Light => UnitStats { atk: 1, hp: 1 },
            UnitType::Ranged => UnitStats { atk: 2, hp: 1 },
            UnitType::Heavy => UnitStats { atk: 3, hp: 3 },
            UnitType::Seeder => UnitStats { atk: 0, hp: 2 },
        }
    }
}

impl ResourcePool {
    /// Whether every counter covers the corresponding cost component.
    pub open spec fn spec_can_pay(self, c: ResourceCost) -> bool {
        self.energy >= c.energy && self.biomass >= c.biomass && self.gene_seeds >= c.gene_seeds
    }

    /// The pool after paying `c`; meaningful only when `spec_can_pay` holds.
    pub open spec fn spec_pay(self, c: ResourceCost) -> ResourcePool {
        ResourcePool {
            energy: (self.energy - c.energy) as u32,
            biomass: (self.biomass - c.biomass) as u32,
            gene_seeds: (self.gene_seeds - c.gene_seeds) as u32,
        }
    }

    pub fn can_pay(&self, c: ResourceCost) -> (b: bool)
        ensures
            b == self.spec_can_pay(c),
    {
        self.energy >= c.energy && self.biomass >= c.biomass && self.gene_seeds >= c.gene_seeds
    }

    /// Debits the pool; callers must have checked affordability, so no
    /// counter underflows.
    pub fn pay(&mut self, c: ResourceCost)
        requires
            old(self).spec_can_pay(c),
        ensures
            *final(self) == old(self).spec_pay(c),
    {
        self.energy = self.energy - c.energy;
        self.biomass = self.biomass - c.biomass;
        self.gene_seeds = self.gene_seeds - c.gene_seeds;
    }
}

} // verus!
