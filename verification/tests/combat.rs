use emberlight::battle::{
    battle_status, compute_hit, enemy_turn, player_turn, run_battle, BattleAction, BattleOutcome,
    ItemEffect, TurnResolution,
};
use emberlight::enemy::Enemy;
use emberlight::mage::Mage;
use emberlight::traits::{Character, Combat, ResourcePool};
use emberlight::warrior::Warrior;

fn seeded_rng(seed: u64) -> rand::rngs::StdRng {
    <rand::rngs::StdRng as rand::SeedableRng>::seed_from_u64(seed)
}

#[test]
fn hit_damage_formula_exact_values() {
    // Variance fixed at 100% and no critical: the base damage passes through.
    assert_eq!(compute_hit(26, 100, false), 26);
    // The critical multiplier is 1.5, truncated.
    assert_eq!(compute_hit(26, 100, true), 39);
    assert_eq!(compute_hit(27, 100, true), 40);
    // The variance multiplier truncates to an integer.
    assert_eq!(compute_hit(26, 85, false), 22);
    assert_eq!(compute_hit(26, 115, false), 29);
    assert_eq!(compute_hit(26, 115, true), 43);
    assert_eq!(compute_hit(13, 80, false), 10);
    assert_eq!(compute_hit(13, 120, true), 22);
    assert_eq!(compute_hit(2, 80, false), 1);
}

#[test]
fn three_warrior_hits_fell_a_goblin() {
    // A level-1 warrior attacks for 26; a level-1 goblin has 65 health.
    // With variance at 100% and no criticals, the third hit ends it.
    let w = Warrior::new(String::from("Hero"), 1);
    let mut g = Enemy::goblin(1);
    assert_eq!(g.get_health(), 65);
    g.take_damage(compute_hit(w.attack(), 100, false));
    assert_eq!(g.get_health(), 39);
    assert_eq!(battle_status(&w, &g), None);
    g.take_damage(compute_hit(w.attack(), 100, false));
    assert_eq!(g.get_health(), 13);
    assert!(g.is_alive());
    g.take_damage(compute_hit(w.attack(), 100, false));
    assert_eq!(g.get_health(), 0);
    assert!(!g.is_alive());
    assert_eq!(battle_status(&w, &g), Some(BattleOutcome::Victory));
}

#[test]
fn attack_turn_damage_stays_in_the_band() {
    for seed in 0..40u64 {
        let mut rng = seeded_rng(seed);
        let mut w = Warrior::new(String::from("Hero"), 1);
        let mut g = Enemy::goblin(1);
        let res = player_turn(&mut w, &mut g, BattleAction::Attack, None, &mut rng);
        assert_eq!(res, TurnResolution::Consumed);
        // Base 26: variance gives 22..=29, a critical at most 43.
        let dealt = 65 - g.get_health();
        assert!((22..=43).contains(&dealt), "dealt {}", dealt);
        // The attacker is untouched on its own turn.
        assert_eq!(w.get_health(), 110);
        assert_eq!(w.get_resource(), 55);
    }
}

#[test]
fn special_turn_spends_resource_and_skips_criticals() {
    for seed in 0..40u64 {
        let mut rng = seeded_rng(seed);
        let mut m = Mage::new(String::from("Sage"), 1);
        let mut g = Enemy::goblin(2);
        assert_eq!(g.get_health(), 80);
        let res = player_turn(&mut m, &mut g, BattleAction::SpecialAbility, None, &mut rng);
        assert_eq!(res, TurnResolution::Consumed);
        assert_eq!(m.get_resource(), 60);
        // Fireball 63 under the narrow band: 56..=69, never multiplied.
        let dealt = 80 - g.get_health();
        assert!((56..=69).contains(&dealt), "dealt {}", dealt);
    }
}

#[test]
fn failed_special_turn_is_free_and_harmless() {
    let mut rng = seeded_rng(7);
    let mut m = Mage::new(String::from("Sage"), 1);
    m.set_resource(29);
    let mut g = Enemy::goblin(1);
    for _ in 0..5 {
        let res = player_turn(&mut m, &mut g, BattleAction::SpecialAbility, None, &mut rng);
        assert_eq!(res, TurnResolution::NotConsumed);
        assert_eq!(m.get_resource(), 29);
        assert_eq!(m.get_health(), 65);
        assert_eq!(g.get_health(), 65);
    }
}

#[test]
fn potion_turn_heals_and_consumes_the_turn() {
    let mut rng = seeded_rng(3);
    let mut w = Warrior::new(String::from("Hero"), 1);
    w.take_damage(50);
    let mut g = Enemy::goblin(1);
    let res = player_turn(
        &mut w,
        &mut g,
        BattleAction::UsePotion,
        Some(ItemEffect::RestoreHealth(30)),
        &mut rng,
    );
    assert_eq!(res, TurnResolution::Consumed);
    assert_eq!(w.get_health(), 90);
    assert_eq!(g.get_health(), 65);
}

#[test]
fn inventory_effect_restores_resource_with_clamp() {
    let mut rng = seeded_rng(3);
    let mut m = Mage::new(String::from("Sage"), 1);
    assert_eq!(m.special_ability(), Some(63));
    assert_eq!(m.get_resource(), 60);
    let mut g = Enemy::goblin(1);
    let res = player_turn(
        &mut m,
        &mut g,
        BattleAction::OpenInventory,
        Some(ItemEffect::RestoreResource(40)),
        &mut rng,
    );
    assert_eq!(res, TurnResolution::Consumed);
    assert_eq!(m.get_resource(), 90);
}

#[test]
fn cancelled_inventory_does_not_consume_the_turn() {
    let mut rng = seeded_rng(9);
    let mut w = Warrior::new(String::from("Hero"), 1);
    let mut g = Enemy::goblin(1);
    let res = player_turn(&mut w, &mut g, BattleAction::OpenInventory, None, &mut rng);
    assert_eq!(res, TurnResolution::NotConsumed);
    assert_eq!(w.get_health(), 110);
    assert_eq!(g.get_health(), 65);
    let res = player_turn(&mut w, &mut g, BattleAction::UsePotion, None, &mut rng);
    assert_eq!(res, TurnResolution::NotConsumed);
    assert_eq!(g.get_health(), 65);
}

#[test]
fn enemy_turn_damage_stays_in_the_band() {
    for seed in 0..40u64 {
        let mut rng = seeded_rng(seed);
        let mut w = Warrior::new(String::from("Hero"), 1);
        let g = Enemy::goblin(1);
        enemy_turn(&g, &mut w, &mut rng);
        // Base 13: variance gives 10..=15, a critical at most 23.
        let taken = 110 - w.get_health();
        assert!((10..=23).contains(&taken), "taken {}", taken);
    }
}

#[test]
fn battle_status_reports_each_terminal_state() {
    let mut w = Warrior::new(String::from("Hero"), 1);
    let mut g = Enemy::goblin(1);
    assert_eq!(battle_status(&w, &g), None);
    w.take_damage(1000);
    assert_eq!(battle_status(&w, &g), Some(BattleOutcome::Defeat));
    g.take_damage(1000);
    // The enemy is checked first: a double knockout counts as a victory.
    assert_eq!(battle_status(&w, &g), Some(BattleOutcome::Victory));
}

#[test]
fn outmatched_goblin_always_falls() {
    // A level-1 warrior kills a level-1 goblin in at most three rounds while
    // taking at most 23 damage a round, so the outcome is certain.
    for seed in 0..25u64 {
        let mut rng = seeded_rng(seed);
        let mut w = Warrior::new(String::from("Hero"), 1);
        let mut g = Enemy::goblin(1);
        let script = Vec::new();
        let outcome = run_battle(&mut w, &mut g, &script, &mut rng);
        assert_eq!(outcome, BattleOutcome::Victory);
        assert_eq!(g.get_health(), 0);
        assert!(w.get_health() > 0);
    }
}

#[test]
fn overwhelming_dragon_always_wins() {
    // A high-level dragon one-shots a level-1 warrior before it can matter.
    for seed in 0..10u64 {
        let mut rng = seeded_rng(seed);
        let mut w = Warrior::new(String::from("Hero"), 1);
        let mut d = Enemy::dragon(1000);
        let outcome = run_battle(&mut w, &mut d, &script_of_attacks(), &mut rng);
        assert_eq!(outcome, BattleOutcome::Defeat);
        assert_eq!(w.get_health(), 0);
        assert!(d.get_health() > 0);
    }
}

fn script_of_attacks() -> Vec<(BattleAction, Option<ItemEffect>)> {
    vec![(BattleAction::Attack, None), (BattleAction::Attack, None)]
}

#[test]
fn scripted_battle_terminates_whatever_the_script() {
    // A script full of wasted choices and potions still ends the battle.
    let mut rng = seeded_rng(11);
    let mut m = Mage::new(String::from("Sage"), 1);
    m.set_resource(0);
    let mut g = Enemy::goblin(1);
    let script = vec![
        (BattleAction::SpecialAbility, None),
        (BattleAction::OpenInventory, None),
        (BattleAction::UsePotion, Some(ItemEffect::RestoreHealth(30))),
        (BattleAction::OpenInventory, Some(ItemEffect::RestoreResource(40))),
        (BattleAction::SpecialAbility, None),
        (BattleAction::Attack, None),
    ];
    let outcome = run_battle(&mut m, &mut g, &script, &mut rng);
    match outcome {
        BattleOutcome::Victory => {
            assert_eq!(g.get_health(), 0);
            assert!(m.get_health() > 0);
        }
        BattleOutcome::Defeat => {
            assert_eq!(m.get_health(), 0);
            assert!(g.get_health() > 0);
        }
    }
}
