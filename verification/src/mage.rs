use vstd::prelude::*;

use crate::traits::{
    can_special, lemma_special_failure_idempotent, special_attempts, Character, Combat, Fighter,
    FighterModel, ResourcePool, MAX_LEVEL,
};

verus! {

pub const BASE_HEALTH: u32 = 60;

pub const HEALTH_PER_LEVEL: u32 = 5;

pub const BASE_MANA: u32 = 80;

pub const MANA_PER_LEVEL: u32 = 10;

pub const BASE_INTELLIGENCE: u32 = 20;

pub const FIREBALL_COST: u32 = 30;

pub const FIREBALL_DAMAGE_MULT: u32 = 3;

/// Spell caster: fragile, mana-fuelled, Fireball special.
pub struct Mage {
    name: String,
    health: u32,
    max_health: u32,
    level: u32,
    intelligence: u32,
    mana: u32,
    max_mana: u32,
}

/// The model a freshly built mage of the given name and level stands for.
pub open spec fn mage_model(name: Seq<char>, level: u32) -> FighterModel {
    FighterModel {
        name: name,
        health: (BASE_HEALTH + level * HEALTH_PER_LEVEL) as u32,
        max_health: (BASE_HEALTH + level * HEALTH_PER_LEVEL) as u32,
        level: level,
        resource: (BASE_MANA + level * MANA_PER_LEVEL) as u32,
        max_resource: (BASE_MANA + level * MANA_PER_LEVEL) as u32,
        resource_name: "Mana"@,
        base_attack: ((BASE_INTELLIGENCE + level) * 2) as u32,
        special_cost: FIREBALL_COST,
        special_damage: ((BASE_INTELLIGENCE + level) * FIREBALL_DAMAGE_MULT) as u32,
        special_name: "Fireball"@,
        has_special: true,
        fixed_pool: false,
    }
}

impl Mage {
    /// A fresh mage at the given level, at full health and full mana.
    pub fn new(name: String, level: u32) -> (r: Mage)
        requires
            1 <= level <= MAX_LEVEL,
        ensures
            r.inv(),
            r.model() == mage_model(name@, level),
    {
        let max_health = BASE_HEALTH + level * HEALTH_PER_LEVEL;
        let max_mana = BASE_MANA + level * MANA_PER_LEVEL;
        Mage {
            name,
            health: max_health,
            max_health,
            level,
            intelligence: BASE_INTELLIGENCE + level,
            mana: max_mana,
            max_mana,
        }
    }

    /// Class constants every mage carries, whatever its state: Fireball
    /// costs 30 mana, the special exists, and the mana pool is a real,
    /// spendable one.
    pub proof fn lemma_class_constants(&self)
        ensures
            self.model().special_cost == FIREBALL_COST,
            self.model().has_special,
            !self.model().fixed_pool,
    {
    }

    /// With mana below the Fireball cost the special ability cannot fire:
    /// by the `Combat` contract each attempt returns `None` and changes
    /// nothing, so any number of repeated attempts leaves the mage exactly
    /// as it was.
    pub proof fn lemma_insufficient_mana_idempotent(&self, n: nat)
        requires
            self.model().resource < FIREBALL_COST,
        ensures
            !can_special(self.model()),
            special_attempts(self.model(), n) == self.model(),
    {
        lemma_special_failure_idempotent(self.model(), n);
    }
}

impl Character for Mage {
    closed spec fn model(&self) -> FighterModel {
        FighterModel {
            name: self.name@,
            health: self.health,
            max_health: self.max_health,
            level: self.level,
            resource: self.mana,
            max_resource: self.max_mana,
            resource_name: "Mana"@,
            base_attack: (self.intelligence * 2) as u32,
            special_cost: FIREBALL_COST,
            special_damage: (self.intelligence * FIREBALL_DAMAGE_MULT) as u32,
            special_name: "Fireball"@,
            has_special: true,
            fixed_pool: false,
        }
    }

    closed spec fn inv(&self) -> bool {
        &&& 1 <= self.level <= MAX_LEVEL
        &&& self.max_health == BASE_HEALTH + self.level * HEALTH_PER_LEVEL
        &&& self.health <= self.max_health
        &&& self.intelligence == BASE_INTELLIGENCE + self.level
        &&& self.max_mana == BASE_MANA + self.level * MANA_PER_LEVEL
        &&& self.mana <= self.max_mana
    }

    proof fn lemma_inv(&self) {
    }

    fn get_name(&self) -> (r: &str) {
        self.name.as_str()
    }

    fn get_health(&self) -> (h: u32) {
        self.health
    }

    fn get_max_health(&self) -> (h: u32) {
        self.max_health
    }

    fn get_level(&self) -> (l: u32) {
        self.level
    }

    fn set_health(&mut self, health: u32) {
        self.health = health;
    }
}

impl ResourcePool for Mage {
    fn get_resource(&self) -> (r: u32) {
        self.mana
    }

    fn get_max_resource(&self) -> (r: u32) {
        self.max_mana
    }

    fn get_resource_name(&self) -> (r: &str) {
        "Mana"
    }

    fn set_resource(&mut self, amount: u32) {
        self.mana = if amount > self.max_mana {
            self.max_mana
        } else {
            amount
        };
    }
}

impl Combat for Mage {
    fn attack(&self) -> (d: u32) {
        self.intelligence * 2
    }

    fn special_ability(&mut self) -> (r: Option<u32>) {
        if !self.consume_resource(FIREBALL_COST) {
            return None;
        }
        let damage = self.intelligence * FIREBALL_DAMAGE_MULT;
        Some(damage)
    }

    fn special_ability_cost(&self) -> (c: u32) {
        FIREBALL_COST
    }

    fn special_ability_name(&self) -> (r: &str) {
        "Fireball"
    }

    fn can_use_special(&self) -> (r: bool) {
        self.has_resource(FIREBALL_COST)
    }
}

impl Fighter for Mage {

}

} // verus!
