use emberlight::enemy::Enemy;
use emberlight::mage::Mage;
use emberlight::player::PlayerFighter;
use emberlight::rogue::Rogue;
use emberlight::traits::{Character, Combat, ResourcePool};
use emberlight::warrior::Warrior;

#[test]
fn warrior_level_one_base_stats() {
    let w = Warrior::new(String::from("Hero"), 1);
    assert_eq!(w.get_name(), "Hero");
    assert_eq!(w.get_level(), 1);
    assert_eq!(w.get_health(), 110);
    assert_eq!(w.get_max_health(), 110);
    assert_eq!(w.get_resource(), 55);
    assert_eq!(w.get_max_resource(), 55);
    assert_eq!(w.get_resource_name(), "Rage");
    assert_eq!(w.attack(), 26);
    assert_eq!(w.special_ability_cost(), 20);
    assert_eq!(w.special_ability_name(), "Shield Bash");
    assert!(w.can_use_special());
    assert!(w.is_alive());
}

#[test]
fn mage_level_one_base_stats() {
    let m = Mage::new(String::from("Sage"), 1);
    assert_eq!(m.get_health(), 65);
    assert_eq!(m.get_max_health(), 65);
    assert_eq!(m.get_resource(), 90);
    assert_eq!(m.get_max_resource(), 90);
    assert_eq!(m.get_resource_name(), "Mana");
    assert_eq!(m.attack(), 42);
    assert_eq!(m.special_ability_cost(), 30);
    assert_eq!(m.special_ability_name(), "Fireball");
}

#[test]
fn rogue_level_one_base_stats() {
    let r = Rogue::new(String::from("Shade"), 1);
    assert_eq!(r.get_health(), 87);
    assert_eq!(r.get_max_health(), 87);
    assert_eq!(r.get_resource(), 110);
    assert_eq!(r.get_max_resource(), 110);
    assert_eq!(r.get_resource_name(), "Energy");
    assert_eq!(r.attack(), 27);
    assert_eq!(r.special_ability_cost(), 40);
    assert_eq!(r.special_ability_name(), "Backstab");
}

#[test]
fn take_damage_saturates_at_zero() {
    let mut w = Warrior::new(String::from("Hero"), 1);
    w.take_damage(5);
    assert_eq!(w.get_health(), 105);
    w.take_damage(1000);
    assert_eq!(w.get_health(), 0);
    assert!(!w.is_alive());
    w.take_damage(7);
    assert_eq!(w.get_health(), 0);
}

#[test]
fn heal_caps_at_max_health() {
    let mut w = Warrior::new(String::from("Hero"), 1);
    w.take_damage(50);
    assert_eq!(w.get_health(), 60);
    w.heal(10);
    assert_eq!(w.get_health(), 70);
    w.heal(1000);
    assert_eq!(w.get_health(), 110);
    w.heal(1);
    assert_eq!(w.get_health(), 110);
}

#[test]
fn consume_resource_gates_on_cost() {
    let mut w = Warrior::new(String::from("Hero"), 1);
    assert!(!w.consume_resource(56));
    assert_eq!(w.get_resource(), 55);
    assert!(w.consume_resource(20));
    assert_eq!(w.get_resource(), 35);
    assert!(w.consume_resource(35));
    assert_eq!(w.get_resource(), 0);
    assert!(!w.consume_resource(1));
    assert_eq!(w.get_resource(), 0);
    assert!(w.consume_resource(0));
}

#[test]
fn set_resource_clamps_to_cap() {
    let mut w = Warrior::new(String::from("Hero"), 1);
    w.set_resource(10);
    assert_eq!(w.get_resource(), 10);
    w.set_resource(1000);
    assert_eq!(w.get_resource(), 55);
}

#[test]
fn mage_casts_three_fireballs_then_fails() {
    let mut m = Mage::new(String::from("Sage"), 1);
    assert_eq!(m.get_resource(), 90);
    assert_eq!(m.special_ability(), Some(63));
    assert_eq!(m.get_resource(), 60);
    assert_eq!(m.special_ability(), Some(63));
    assert_eq!(m.get_resource(), 30);
    assert_eq!(m.special_ability(), Some(63));
    assert_eq!(m.get_resource(), 0);
    assert_eq!(m.special_ability(), None);
    assert_eq!(m.get_resource(), 0);
}

#[test]
fn failed_special_never_mutates_state() {
    let mut r = Rogue::new(String::from("Shade"), 1);
    r.set_resource(39);
    for _ in 0..10 {
        assert_eq!(r.special_ability(), None);
        assert_eq!(r.get_resource(), 39);
        assert_eq!(r.get_health(), 87);
        assert!(!r.can_use_special());
    }
    r.set_resource(40);
    assert_eq!(r.special_ability(), Some(81));
    assert_eq!(r.get_resource(), 0);
}

#[test]
fn enemy_baseline_and_bonus_stats() {
    let g = Enemy::new(String::from("Goblin"), 2);
    assert_eq!(g.get_name(), "Goblin");
    assert_eq!(g.get_level(), 2);
    assert_eq!(g.get_health(), 80);
    assert_eq!(g.get_max_health(), 80);
    assert_eq!(g.attack(), 16);

    let g2 = Enemy::goblin(2);
    assert_eq!(g2.get_health(), 80);
    assert_eq!(g2.attack(), 16);

    let o = Enemy::orc(2);
    assert_eq!(o.get_name(), "Orc");
    assert_eq!(o.get_health(), 100);
    assert_eq!(o.get_max_health(), 100);
    assert_eq!(o.attack(), 21);

    let d = Enemy::dragon(2);
    assert_eq!(d.get_name(), "Dragon");
    assert_eq!(d.get_health(), 130);
    assert_eq!(d.get_max_health(), 130);
    assert_eq!(d.attack(), 31);
}

#[test]
fn enemy_pool_is_degenerate() {
    let mut e = Enemy::goblin(1);
    assert_eq!(e.get_resource(), 999);
    assert_eq!(e.get_max_resource(), 999);
    assert_eq!(e.get_resource_name(), "Rage");
    e.set_resource(5);
    assert_eq!(e.get_resource(), 999);
    assert!(e.consume_resource(100));
    assert_eq!(e.get_resource(), 999);
    assert!(!e.can_use_special());
    assert_eq!(e.special_ability(), None);
    assert_eq!(e.special_ability_cost(), 0);
    assert_eq!(e.special_ability_name(), "Roar");
}

#[test]
fn player_fighter_dispatches_by_class() {
    let mut p = PlayerFighter::Mage(Mage::new(String::from("Sage"), 1));
    assert_eq!(p.get_resource_name(), "Mana");
    assert_eq!(p.attack(), 42);
    assert_eq!(p.special_ability(), Some(63));
    assert_eq!(p.get_resource(), 60);

    let w = PlayerFighter::Warrior(Warrior::new(String::from("Hero"), 1));
    assert_eq!(w.get_max_health(), 110);
    assert_eq!(w.special_ability_name(), "Shield Bash");

    let r = PlayerFighter::Rogue(Rogue::new(String::from("Shade"), 1));
    assert_eq!(r.attack(), 27);
}

#[test]
fn leveling_scales_derived_stats() {
    let w = Warrior::new(String::from("Hero"), 3);
    assert_eq!(w.get_max_health(), 130);
    assert_eq!(w.get_max_resource(), 65);
    assert_eq!(w.attack(), 28);

    let m = Mage::new(String::from("Sage"), 4);
    assert_eq!(m.get_max_health(), 80);
    assert_eq!(m.get_max_resource(), 120);
    assert_eq!(m.attack(), 48);

    let r = Rogue::new(String::from("Shade"), 5);
    assert_eq!(r.get_max_health(), 115);
    assert_eq!(r.get_max_resource(), 150);
    assert_eq!(r.attack(), 33);
}
