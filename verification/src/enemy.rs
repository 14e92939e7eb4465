use vstd::prelude::*;

use crate::traits::{
    Character, Combat, Fighter, FighterModel, ResourcePool, ATTACK_CAP, MAX_LEVEL,
};

verus! {

pub const BASE_HEALTH: u32 = 50;

pub const HEALTH_PER_LEVEL: u32 = 15;

pub const BASE_ATTACK: u32 = 10;

pub const ATTACK_PER_LEVEL: u32 = 3;

pub const ORC_HEALTH_BONUS: u32 = 20;

pub const ORC_ATTACK_BONUS: u32 = 5;

pub const DRAGON_HEALTH_BONUS: u32 = 50;

pub const DRAGON_ATTACK_BONUS: u32 = 15;

/// Enemies never spend a resource, so they carry an effectively unlimited
/// pool of this constant size whose mutation is ignored.
pub const ENEMY_RAGE: u32 = 999;

/// An adversary: one type for every enemy kind, with stats fixed at spawn.
pub struct Enemy {
    name: String,
    health: u32,
    max_health: u32,
    level: u32,
    attack_power: u32,
}

/// The model an enemy with the given identity and stats stands for, at full
/// health.
pub open spec fn enemy_model(
    name: Seq<char>,
    level: u32,
    max_health: u32,
    attack_power: u32,
) -> FighterModel {
    FighterModel {
        name: name,
        health: max_health,
        max_health: max_health,
        level: level,
        resource: ENEMY_RAGE,
        max_resource: ENEMY_RAGE,
        resource_name: "Rage"@,
        base_attack: attack_power,
        special_cost: 0,
        special_damage: 0,
        special_name: "Roar"@,
        has_special: false,
        fixed_pool: true,
    }
}

/// The model of a baseline enemy of the given level.
pub open spec fn base_enemy_model(name: Seq<char>, level: u32) -> FighterModel {
    enemy_model(
        name,
        level,
        (BASE_HEALTH + level * HEALTH_PER_LEVEL) as u32,
        (BASE_ATTACK + level * ATTACK_PER_LEVEL) as u32,
    )
}

/// The model of a goblin of the given level: the baseline.
pub open spec fn goblin_model(level: u32) -> FighterModel {
    base_enemy_model("Goblin"@, level)
}

/// The model of an orc of the given level: baseline plus flat bonuses.
pub open spec fn orc_model(level: u32) -> FighterModel {
    enemy_model(
        "Orc"@,
        level,
        (BASE_HEALTH + level * HEALTH_PER_LEVEL + ORC_HEALTH_BONUS) as u32,
        (BASE_ATTACK + level * ATTACK_PER_LEVEL + ORC_ATTACK_BONUS) as u32,
    )
}

/// The model of a dragon of the given level: baseline plus larger bonuses.
pub open spec fn dragon_model(level: u32) -> FighterModel {
    enemy_model(
        "Dragon"@,
        level,
        (BASE_HEALTH + level * HEALTH_PER_LEVEL + DRAGON_HEALTH_BONUS) as u32,
        (BASE_ATTACK + level * ATTACK_PER_LEVEL + DRAGON_ATTACK_BONUS) as u32,
    )
}

impl Enemy {
    /// A baseline enemy of the given name and level, at full health.
    pub fn new(name: String, level: u32) -> (r: Enemy)
        requires
            1 <= level <= MAX_LEVEL,
        ensures
            r.inv(),
            r.model() == base_enemy_model(name@, level),
    {
        let max_health = BASE_HEALTH + level * HEALTH_PER_LEVEL;
        Enemy {
            name,
            health: max_health,
            max_health,
            level,
            attack_power: BASE_ATTACK + level * ATTACK_PER_LEVEL,
        }
    }

    pub fn goblin(level: u32) -> (r: Enemy)
        requires
            1 <= level <= MAX_LEVEL,
        ensures
            r.inv(),
            r.model() == goblin_model(level),
    {
        Self::new("Goblin".to_owned(), level)
    }

    pub fn orc(level: u32) -> (r: Enemy)
        requires
            1 <= level <= MAX_LEVEL,
        ensures
            r.inv(),
            r.model() == orc_model(level),
    {
        let mut enemy = Self::new("Orc".to_owned(), level);
        enemy.max_health = enemy.max_health + ORC_HEALTH_BONUS;
        enemy.health = enemy.max_health;
        enemy.attack_power = enemy.attack_power + ORC_ATTACK_BONUS;
        enemy
    }

    pub fn dragon(level: u32) -> (r: Enemy)
        requires
            1 <= level <= MAX_LEVEL,
        ensures
            r.inv(),
            r.model() == dragon_model(level),
    {
        let mut enemy = Self::new("Dragon".to_owned(), level);
        enemy.max_health = enemy.max_health + DRAGON_HEALTH_BONUS;
        enemy.health = enemy.max_health;
        enemy.attack_power = enemy.attack_power + DRAGON_ATTACK_BONUS;
        enemy
    }
}

impl Character for Enemy {
    closed spec fn model(&self) -> FighterModel {
        FighterModel {
            name: self.name@,
            health: self.health,
            max_health: self.max_health,
            level: self.level,
            resource: ENEMY_RAGE,
            max_resource: ENEMY_RAGE,
            resource_name: "Rage"@,
            base_attack: self.attack_power,
            special_cost: 0,
            special_damage: 0,
            special_name: "Roar"@,
            has_special: false,
            fixed_pool: true,
        }
    }

    closed spec fn inv(&self) -> bool {
        &&& 1 <= self.level <= MAX_LEVEL
        &&& self.health <= self.max_health
        &&& 2 <= self.attack_power <= ATTACK_CAP
    }

    proof fn lemma_inv(&self) {
    }

    fn get_name(&self) -> (r: &str) {
        self.name.as_str()
    }

    fn get_health(&self) -> (h: u32) {
        self.health
    }

    fn get_max_health(&self) -> (h: u32) {
        self.max_health
    }

    fn get_level(&self) -> (l: u32) {
        self.level
    }

    fn set_health(&mut self, health: u32) {
        self.health = health;
    }
}

impl ResourcePool for Enemy {
    fn get_resource(&self) -> (r: u32) {
        ENEMY_RAGE
    }

    fn get_max_resource(&self) -> (r: u32) {
        ENEMY_RAGE
    }

    fn get_resource_name(&self) -> (r: &str) {
        "Rage"
    }

    fn set_resource(&mut self, amount: u32) {
        let _ = amount;
    }
}

impl Combat for Enemy {
    fn attack(&self) -> (d: u32) {
        self.attack_power
    }

    fn special_ability(&mut self) -> (r: Option<u32>) {
        None
    }

    fn special_ability_cost(&self) -> (c: u32) {
        0
    }

    fn special_ability_name(&self) -> (r: &str) {
        "Roar"
    }

    fn can_use_special(&self) -> (r: bool) {
        false
    }
}

impl Fighter for Enemy {

}

} // verus!
