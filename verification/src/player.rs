use vstd::prelude::*;

use crate::mage::Mage;
use crate::rogue::Rogue;
use crate::traits::{Character, Combat, Fighter, FighterModel, ResourcePool};
use crate::warrior::Warrior;

verus! {

/// The closed set of player classes. The battle resolver and the UI operate
/// on this type through the shared capability traits without knowing which
/// class is inside.
pub enum PlayerFighter {
    Warrior(Warrior),
    Mage(Mage),
    Rogue(Rogue),
}

impl Character for PlayerFighter {
    open spec fn model(&self) -> FighterModel {
        match self {
            PlayerFighter::Warrior(w) => w.model(),
            PlayerFighter::Mage(m) => m.model(),
            PlayerFighter::Rogue(r) => r.model(),
        }
    }

    open spec fn inv(&self) -> bool {
        match self {
            PlayerFighter::Warrior(w) => w.inv(),
            PlayerFighter::Mage(m) => m.inv(),
            PlayerFighter::Rogue(r) => r.inv(),
        }
    }

    proof fn lemma_inv(&self) {
        match self {
            PlayerFighter::Warrior(w) => w.lemma_inv(),
            PlayerFighter::Mage(m) => m.lemma_inv(),
            PlayerFighter::Rogue(r) => r.lemma_inv(),
        }
    }

    fn get_name(&self) -> (r: &str) {
        match self {
            PlayerFighter::Warrior(w) => w.get_name(),
            PlayerFighter::Mage(m) => m.get_name(),
            PlayerFighter::Rogue(r) => r.get_name(),
        }
    }

    fn get_health(&self) -> (h: u32) {
        match self {
            PlayerFighter::Warrior(w) => w.get_health(),
            PlayerFighter::Mage(m) => m.get_health(),
            PlayerFighter::Rogue(r) => r.get_health(),
        }
    }

    fn get_max_health(&self) -> (h: u32) {
        match self {
            PlayerFighter::Warrior(w) => w.get_max_health(),
            PlayerFighter::Mage(m) => m.get_max_health(),
            PlayerFighter::Rogue(r) => r.get_max_health(),
        }
    }

    fn get_level(&self) -> (l: u32) {
        match self {
            PlayerFighter::Warrior(w) => w.get_level(),
            PlayerFighter::Mage(m) => m.get_level(),
            PlayerFighter::Rogue(r) => r.get_level(),
        }
    }

    fn set_health(&mut self, health: u32) {
        match self {
            PlayerFighter::Warrior(w) => w.set_health(health),
            PlayerFighter::Mage(m) => m.set_health(health),
            PlayerFighter::Rogue(r) => r.set_health(health),
        }
    }
}

impl ResourcePool for PlayerFighter {
    fn get_resource(&self) -> (r: u32) {
        match self {
            PlayerFighter::Warrior(w) => w.get_resource(),
            PlayerFighter::Mage(m) => m.get_resource(),
            PlayerFighter::Rogue(r) => r.get_resource(),
        }
    }

    fn get_max_resource(&self) -> (r: u32) {
        match self {
            PlayerFighter::Warrior(w) => w.get_max_resource(),
            PlayerFighter::Mage(m) => m.get_max_resource(),
            PlayerFighter::Rogue(r) => r.get_max_resource(),
        }
    }

    fn get_resource_name(&self) -> (r: &str) {
        match self {
            PlayerFighter::Warrior(w) => w.get_resource_name(),
            PlayerFighter::Mage(m) => m.get_resource_name(),
            PlayerFighter::Rogue(r) => r.get_resource_name(),
        }
    }

    fn set_resource(&mut self, amount: u32) {
        match self {
            PlayerFighter::Warrior(w) => w.set_resource(amount),
            PlayerFighter::Mage(m) => m.set_resource(amount),
            PlayerFighter::Rogue(r) => r.set_resource(amount),
        }
    }
}

impl Combat for PlayerFighter {
    fn attack(&self) -> (d: u32) {
        match self {
            PlayerFighter::Warrior(w) => w.attack(),
            PlayerFighter::Mage(m) => m.attack(),
            PlayerFighter::Rogue(r) => r.attack(),
        }
    }

    fn special_ability(&mut self) -> (r: Option<u32>) {
        match self {
            PlayerFighter::Warrior(w) => w.special_ability(),
            PlayerFighter::Mage(m) => m.special_ability(),
            PlayerFighter::Rogue(r) => r.special_ability(),
        }
    }

    fn special_ability_cost(&self) -> (c: u32) {
        match self {
            PlayerFighter::Warrior(w) => w.special_ability_cost(),
            PlayerFighter::Mage(m) => m.special_ability_cost(),
            PlayerFighter::Rogue(r) => r.special_ability_cost(),
        }
    }

    fn special_ability_name(&self) -> (r: &str) {
        match self {
            PlayerFighter::Warrior(w) => w.special_ability_name(),
            PlayerFighter::Mage(m) => m.special_ability_name(),
            PlayerFighter::Rogue(r) => r.special_ability_name(),
        }
    }

    fn can_use_special(&self) -> (r: bool) {
        match self {
            PlayerFighter::Warrior(w) => w.can_use_special(),
            PlayerFighter::Mage(m) => m.can_use_special(),
            PlayerFighter::Rogue(r) => r.can_use_special(),
        }
    }
}

impl Fighter for PlayerFighter {

}

} // verus!
