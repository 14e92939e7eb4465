use emberlight::item::{
    use_health_potion, use_item_at, use_item_checked, Item, ItemUse, MenuItemUse,
};
use emberlight::mage::Mage;
use emberlight::scaling::{spawn, spawn_from_roll};
use emberlight::traits::{Character, Combat, ResourcePool};
use emberlight::warrior::Warrior;

fn seeded_rng(seed: u64) -> rand::rngs::StdRng {
    <rand::rngs::StdRng as rand::SeedableRng>::seed_from_u64(seed)
}

#[test]
fn item_accessors() {
    let i = Item::new(String::from("Gem"), 90);
    assert_eq!(i.name(), "Gem");
    assert_eq!(i.value(), 90);
    assert!(!i.is_health_potion());
    assert!(!i.is_energy_potion());
    assert!(Item::new(String::from("Health Potion"), 50).is_health_potion());
    assert!(Item::new(String::from("Energy Potion"), 40).is_energy_potion());
}

#[test]
fn loot_always_comes_from_the_table() {
    let table = [
        ("Ancient Artifact", 500),
        ("Elven Amulet", 200),
        ("Dragon Scale", 250),
        ("Enchanted Ring", 180),
        ("Mystic Tome", 220),
        ("Silver Dagger", 80),
        ("Gold Coin Pouch", 100),
        ("Gem", 90),
        ("Healing Herb", 60),
        ("Health Potion", 50),
        ("Energy Potion", 40),
    ];
    for seed in 0..200u64 {
        let mut rng = seeded_rng(seed);
        let item = Item::random_loot(&mut rng);
        let found = table
            .iter()
            .any(|(n, v)| item.name() == *n && item.value() == *v);
        assert!(found, "unexpected loot {} ({})", item.name(), item.value());
    }
}

#[test]
fn use_health_potion_drinks_the_first_one() {
    let mut w = Warrior::new(String::from("Hero"), 1);
    w.take_damage(50);
    let mut inventory = vec![
        Item::new(String::from("Gem"), 90),
        Item::new(String::from("Health Potion"), 50),
        Item::new(String::from("Health Potion"), 50),
    ];
    assert!(use_health_potion(&mut w, &mut inventory));
    assert_eq!(w.get_health(), 90);
    assert_eq!(inventory.len(), 2);
    assert_eq!(inventory[0].name(), "Gem");
    assert_eq!(inventory[1].name(), "Health Potion");
}

#[test]
fn use_health_potion_without_one_changes_nothing() {
    let mut w = Warrior::new(String::from("Hero"), 1);
    w.take_damage(50);
    let mut inventory = vec![Item::new(String::from("Energy Potion"), 40)];
    assert!(!use_health_potion(&mut w, &mut inventory));
    assert_eq!(w.get_health(), 60);
    assert_eq!(inventory.len(), 1);
}

#[test]
fn use_item_at_applies_each_potion_kind() {
    let mut m = Mage::new(String::from("Sage"), 1);
    m.take_damage(40);
    assert_eq!(m.special_ability(), Some(63));
    assert_eq!(m.get_resource(), 60);
    let mut inventory = vec![
        Item::new(String::from("Health Potion"), 50),
        Item::new(String::from("Energy Potion"), 40),
        Item::new(String::from("Gem"), 90),
    ];
    assert_eq!(use_item_at(&mut m, &mut inventory, 0), ItemUse::HealthRestored);
    assert_eq!(m.get_health(), 55);
    assert_eq!(inventory.len(), 2);
    // 60 + 40 caps at the 90 mana maximum.
    assert_eq!(use_item_at(&mut m, &mut inventory, 0), ItemUse::ResourceRestored);
    assert_eq!(m.get_resource(), 90);
    assert_eq!(inventory.len(), 1);
    assert_eq!(use_item_at(&mut m, &mut inventory, 0), ItemUse::NotUsable);
    assert_eq!(inventory.len(), 1);
    assert_eq!(m.get_health(), 55);
}

#[test]
fn checked_use_refuses_potions_at_full_capacity() {
    let mut w = Warrior::new(String::from("Hero"), 1);
    let mut inventory = vec![
        Item::new(String::from("Health Potion"), 50),
        Item::new(String::from("Energy Potion"), 40),
        Item::new(String::from("Gem"), 90),
    ];
    // At full health and full rage, both potions are refused and kept.
    assert_eq!(use_item_checked(&mut w, &mut inventory, 0), MenuItemUse::HealthFull);
    assert_eq!(use_item_checked(&mut w, &mut inventory, 1), MenuItemUse::ResourceFull);
    assert_eq!(inventory.len(), 3);
    assert_eq!(w.get_health(), 110);
    assert_eq!(w.get_resource(), 55);
    // Anything else is only viewed.
    assert_eq!(use_item_checked(&mut w, &mut inventory, 2), MenuItemUse::NotUsable);
    assert_eq!(inventory.len(), 3);
}

#[test]
fn checked_use_drinks_potions_below_capacity() {
    let mut w = Warrior::new(String::from("Hero"), 1);
    w.take_damage(50);
    w.set_resource(20);
    let mut inventory = vec![
        Item::new(String::from("Health Potion"), 50),
        Item::new(String::from("Energy Potion"), 40),
    ];
    assert_eq!(use_item_checked(&mut w, &mut inventory, 0), MenuItemUse::HealthRestored);
    assert_eq!(w.get_health(), 90);
    assert_eq!(inventory.len(), 1);
    assert_eq!(use_item_checked(&mut w, &mut inventory, 0), MenuItemUse::ResourceRestored);
    assert_eq!(w.get_resource(), 55);
    assert!(inventory.is_empty());
}

#[test]
fn every_fifth_encounter_is_a_boss_dragon() {
    let boss = spawn_from_roll(5, 1);
    assert_eq!(boss.get_name(), "Dragon");
    assert_eq!(boss.get_level(), 3);
    // Even a roll that would pick a goblin is overridden on a boss encounter.
    let boss2 = spawn_from_roll(10, 50);
    assert_eq!(boss2.get_name(), "Dragon");
    assert_eq!(boss2.get_level(), 4);
    for seed in 0..10u64 {
        let mut rng = seeded_rng(seed);
        let e = spawn(5, &mut rng);
        assert_eq!(e.get_name(), "Dragon");
        assert_eq!(e.get_level(), 3);
    }
}

#[test]
fn ordinary_encounters_follow_the_weighted_roll() {
    for enc in [1u32, 2, 3, 4] {
        let level = 1 + enc / 2;
        for roll in [1u32, 25, 50] {
            let e = spawn_from_roll(enc, roll);
            assert_eq!(e.get_name(), "Goblin");
            assert_eq!(e.get_level(), level);
        }
        for roll in [51u32, 70, 85] {
            let e = spawn_from_roll(enc, roll);
            assert_eq!(e.get_name(), "Orc");
            assert_eq!(e.get_level(), level);
        }
        for roll in [86u32, 95, 100] {
            let e = spawn_from_roll(enc, roll);
            assert_eq!(e.get_name(), "Dragon");
            assert_eq!(e.get_level(), level);
        }
    }
}

#[test]
fn spawned_enemy_stats_match_their_kind() {
    let g = spawn_from_roll(1, 10);
    assert_eq!(g.get_health(), 65);
    assert_eq!(g.attack(), 13);
    let o = spawn_from_roll(1, 60);
    assert_eq!(o.get_health(), 85);
    assert_eq!(o.attack(), 18);
    let d = spawn_from_roll(1, 90);
    assert_eq!(d.get_health(), 115);
    assert_eq!(d.attack(), 28);
}

#[test]
fn spawn_yields_one_of_the_three_kinds() {
    for seed in 0..30u64 {
        let mut rng = seeded_rng(seed);
        for enc in [1u32, 2, 3, 4, 6, 7] {
            let e = spawn(enc, &mut rng);
            let name = e.get_name().to_string();
            assert!(
                name == "Goblin" || name == "Orc" || name == "Dragon",
                "unexpected enemy {}",
                name
            );
            assert_eq!(e.get_level(), 1 + enc / 2);
        }
    }
}
