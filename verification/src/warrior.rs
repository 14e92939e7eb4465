use vstd::prelude::*;

use crate::traits::{
    can_special, lemma_special_failure_idempotent, special_attempts, Character, Combat, Fighter,
    FighterModel, ResourcePool, MAX_LEVEL,
};

verus! {

pub const BASE_HEALTH: u32 = 100;

pub const HEALTH_PER_LEVEL: u32 = 10;

pub const BASE_STRENGTH: u32 = 15;

pub const BASE_ARMOR: u32 = 10;

pub const BASE_RAGE: u32 = 50;

pub const RAGE_PER_LEVEL: u32 = 5;

pub const SHIELD_BASH_COST: u32 = 20;

pub const SHIELD_BASH_DAMAGE_MULT: u32 = 2;

/// Tank and heavy hitter: rage-fuelled, high health, Shield Bash special.
pub struct Warrior {
    name: String,
    health: u32,
    max_health: u32,
    level: u32,
    strength: u32,
    #[allow(dead_code)]
    armor: u32,
    rage: u32,
    max_rage: u32,
}

/// The model a freshly built warrior of the given name and level stands for.
pub open spec fn warrior_model(name: Seq<char>, level: u32) -> FighterModel {
    FighterModel {
        name: name,
        health: (BASE_HEALTH + level * HEALTH_PER_LEVEL) as u32,
        max_health: (BASE_HEALTH + level * HEALTH_PER_LEVEL) as u32,
        level: level,
        resource: (BASE_RAGE + level * RAGE_PER_LEVEL) as u32,
        max_resource: (BASE_RAGE + level * RAGE_PER_LEVEL) as u32,
        resource_name: "Rage"@,
        base_attack: (BASE_STRENGTH + level + 10) as u32,
        special_cost: SHIELD_BASH_COST,
        special_damage: ((BASE_STRENGTH + level + 10) * SHIELD_BASH_DAMAGE_MULT) as u32,
        special_name: "Shield Bash"@,
        has_special: true,
        fixed_pool: false,
    }
}

impl Warrior {
    /// A fresh warrior at the given level, at full health and full rage.
    pub fn new(name: String, level: u32) -> (r: Warrior)
        requires
            1 <= level <= MAX_LEVEL,
        ensures
            r.inv(),
            r.model() == warrior_model(name@, level),
    {
        let max_health = BASE_HEALTH + level * HEALTH_PER_LEVEL;
        let max_rage = BASE_RAGE + level * RAGE_PER_LEVEL;
        Warrior {
            name,
            health: max_health,
            max_health,
            level,
            strength: BASE_STRENGTH + level,
            armor: BASE_ARMOR + level,
            rage: max_rage,
            max_rage,
        }
    }

    /// Class constants every warrior carries, whatever its state: Shield
    /// Bash costs 20 rage, the special exists, and the rage pool is a real,
    /// spendable one.
    pub proof fn lemma_class_constants(&self)
        ensures
            self.model().special_cost == SHIELD_BASH_COST,
            self.model().has_special,
            !self.model().fixed_pool,
    {
    }

    /// With rage below the Shield Bash cost the special ability cannot
    /// fire: by the `Combat` contract each attempt returns `None` and
    /// changes nothing, so any number of repeated attempts leaves the
    /// warrior exactly as it was.
    pub proof fn lemma_insufficient_rage_idempotent(&self, n: nat)
        requires
            self.model().resource < SHIELD_BASH_COST,
        ensures
            !can_special(self.model()),
            special_attempts(self.model(), n) == self.model(),
    {
        lemma_special_failure_idempotent(self.model(), n);
    }
}

impl Character for Warrior {
    closed spec fn model(&self) -> FighterModel {
        FighterModel {
            name: self.name@,
            health: self.health,
            max_health: self.max_health,
            level: self.level,
            resource: self.rage,
            max_resource: self.max_rage,
            resource_name: "Rage"@,
            base_attack: (self.strength + 10) as u32,
            special_cost: SHIELD_BASH_COST,
            special_damage: ((self.strength + 10) * SHIELD_BASH_DAMAGE_MULT) as u32,
            special_name: "Shield Bash"@,
            has_special: true,
            fixed_pool: false,
        }
    }

    closed spec fn inv(&self) -> bool {
        &&& 1 <= self.level <= MAX_LEVEL
        &&& self.max_health == BASE_HEALTH + self.level * HEALTH_PER_LEVEL
        &&& self.health <= self.max_health
        &&& self.strength == BASE_STRENGTH + self.level
        &&& self.armor == BASE_ARMOR + self.level
        &&& self.max_rage == BASE_RAGE + self.level * RAGE_PER_LEVEL
        &&& self.rage <= self.max_rage
    }

    proof fn lemma_inv(&self) {
    }

    fn get_name(&self) -> (r: &str) {
        self.name.as_str()
    }

    fn get_health(&self) -> (h: u32) {
        self.health
    }

    fn get_max_health(&self) -> (h: u32) {
        self.max_health
    }

    fn get_level(&self) -> (l: u32) {
        self.level
    }

    fn set_health(&mut self, health: u32) {
        self.health = health;
    }
}

impl ResourcePool for Warrior {
    fn get_resource(&self) -> (r: u32) {
        self.rage
    }

    fn get_max_resource(&self) -> (r: u32) {
        self.max_rage
    }

    fn get_resource_name(&self) -> (r: &str) {
        "Rage"
    }

    fn set_resource(&mut self, amount: u32) {
        self.rage = if amount > self.max_rage {
            self.max_rage
        } else {
            amount
        };
    }
}

impl Combat for Warrior {
    fn attack(&self) -> (d: u32) {
        self.strength + 10
    }

    fn special_ability(&mut self) -> (r: Option<u32>) {
        if !self.consume_resource(SHIELD_BASH_COST) {
            return None;
        }
        let damage = (self.strength + 10) * SHIELD_BASH_DAMAGE_MULT;
        Some(damage)
    }

    fn special_ability_cost(&self) -> (c: u32) {
        SHIELD_BASH_COST
    }

    fn special_ability_name(&self) -> (r: &str) {
        "Shield Bash"
    }

    fn can_use_special(&self) -> (r: bool) {
        self.has_resource(SHIELD_BASH_COST)
    }
}

impl Fighter for Warrior {

}

} // verus!
