use vstd::prelude::*;

use crate::traits::{
    can_special, lemma_special_failure_idempotent, special_attempts, Character, Combat, Fighter,
    FighterModel, ResourcePool, MAX_LEVEL,
};

verus! {

pub const BASE_HEALTH: u32 = 80;

pub const HEALTH_PER_LEVEL: u32 = 7;

pub const BASE_AGILITY: u32 = 18;

pub const BASE_STEALTH: u32 = 15;

pub const BASE_ENERGY: u32 = 100;

pub const ENERGY_PER_LEVEL: u32 = 10;

pub const BACKSTAB_COST: u32 = 40;

pub const BACKSTAB_CRIT_MULT: u32 = 3;

/// Swift assassin: energy-fuelled, Backstab special.
pub struct Rogue {
    name: String,
    health: u32,
    max_health: u32,
    level: u32,
    agility: u32,
    stealth: u32,
    energy: u32,
    max_energy: u32,
}

/// The model a freshly built rogue of the given name and level stands for.
pub open spec fn rogue_model(name: Seq<char>, level: u32) -> FighterModel {
    FighterModel {
        name: name,
        health: (BASE_HEALTH + level * HEALTH_PER_LEVEL) as u32,
        max_health: (BASE_HEALTH + level * HEALTH_PER_LEVEL) as u32,
        level: level,
        resource: (BASE_ENERGY + level * ENERGY_PER_LEVEL) as u32,
        max_resource: (BASE_ENERGY + level * ENERGY_PER_LEVEL) as u32,
        resource_name: "Energy"@,
        base_attack: (BASE_AGILITY + level + (BASE_STEALTH + level) / 2) as u32,
        special_cost: BACKSTAB_COST,
        special_damage: ((BASE_AGILITY + level + (BASE_STEALTH + level) / 2)
            * BACKSTAB_CRIT_MULT) as u32,
        special_name: "Backstab"@,
        has_special: true,
        fixed_pool: false,
    }
}

impl Rogue {
    /// A fresh rogue at the given level, at full health and full energy.
    pub fn new(name: String, level: u32) -> (r: Rogue)
        requires
            1 <= level <= MAX_LEVEL,
        ensures
            r.inv(),
            r.model() == rogue_model(name@, level),
    {
        let max_health = BASE_HEALTH + level * HEALTH_PER_LEVEL;
        let max_energy = BASE_ENERGY + level * ENERGY_PER_LEVEL;
        Rogue {
            name,
            health: max_health,
            max_health,
            level,
            agility: BASE_AGILITY + level,
            stealth: BASE_STEALTH + level,
            energy: max_energy,
            max_energy,
        }
    }

    /// Class constants every rogue carries, whatever its state: Backstab
    /// costs 40 energy, the special exists, and the energy pool is a real,
    /// spendable one.
    pub proof fn lemma_class_constants(&self)
        ensures
            self.model().special_cost == BACKSTAB_COST,
            self.model().has_special,
            !self.model().fixed_pool,
    {
    }

    /// With energy below the Backstab cost the special ability cannot fire:
    /// by the `Combat` contract each attempt returns `None` and changes
    /// nothing, so any number of repeated attempts leaves the rogue exactly
    /// as it was.
    pub proof fn lemma_insufficient_energy_idempotent(&self, n: nat)
        requires
            self.model().resource < BACKSTAB_COST,
        ensures
            !can_special(self.model()),
            special_attempts(self.model(), n) == self.model(),
    {
        lemma_special_failure_idempotent(self.model(), n);
    }
}

impl Character for Rogue {
    closed spec fn model(&self) -> FighterModel {
        FighterModel {
            name: self.name@,
            health: self.health,
            max_health: self.max_health,
            level: self.level,
            resource: self.energy,
            max_resource: self.max_energy,
            resource_name: "Energy"@,
            base_attack: (self.agility + self.stealth / 2) as u32,
            special_cost: BACKSTAB_COST,
            special_damage: ((self.agility + self.stealth / 2) * BACKSTAB_CRIT_MULT) as u32,
            special_name: "Backstab"@,
            has_special: true,
            fixed_pool: false,
        }
    }

    closed spec fn inv(&self) -> bool {
        &&& 1 <= self.level <= MAX_LEVEL
        &&& self.max_health == BASE_HEALTH + self.level * HEALTH_PER_LEVEL
        &&& self.health <= self.max_health
        &&& self.agility == BASE_AGILITY + self.level
        &&& self.stealth == BASE_STEALTH + self.level
        &&& self.max_energy == BASE_ENERGY + self.level * ENERGY_PER_LEVEL
        &&& self.energy <= self.max_energy
    }

    proof fn lemma_inv(&self) {
    }

    fn get_name(&self) -> (r: &str) {
        self.name.as_str()
    }

    fn get_health(&self) -> (h: u32) {
        self.health
    }

    fn get_max_health(&self) -> (h: u32) {
        self.max_health
    }

    fn get_level(&self) -> (l: u32) {
        self.level
    }

    fn set_health(&mut self, health: u32) {
        self.health = health;
    }
}

impl ResourcePool for Rogue {
    fn get_resource(&self) -> (r: u32) {
        self.energy
    }

    fn get_max_resource(&self) -> (r: u32) {
        self.max_energy
    }

    fn get_resource_name(&self) -> (r: &str) {
        "Energy"
    }

    fn set_resource(&mut self, amount: u32) {
        self.energy = if amount > self.max_energy {
            self.max_energy
        } else {
            amount
        };
    }
}

impl Combat for Rogue {
    fn attack(&self) -> (d: u32) {
        self.agility + self.stealth / 2
    }

    fn special_ability(&mut self) -> (r: Option<u32>) {
        if !self.consume_resource(BACKSTAB_COST) {
            return None;
        }
        let base_damage = self.agility + self.stealth / 2;
        let damage = base_damage * BACKSTAB_CRIT_MULT;
        Some(damage)
    }

    fn special_ability_cost(&self) -> (c: u32) {
        BACKSTAB_COST
    }

    fn special_ability_name(&self) -> (r: &str) {
        "Backstab"
    }

    fn can_use_special(&self) -> (r: bool) {
        self.has_resource(BACKSTAB_COST)
    }
}

impl Fighter for Rogue {

}

} // verus!
