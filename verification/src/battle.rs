use vstd::prelude::*;

use crate::enemy::Enemy;
use crate::rng::roll;
use crate::traits::{
    can_special, damaged, healed, pool_spent, restored, Character, Combat, Fighter,
    FighterModel, ResourcePool, ATTACK_CAP,
};

verus! {

/// Multiplicative damage variance, in whole percent. A player's basic attack
/// swings between 85% and 115% of its base damage.
pub const PLAYER_VARIANCE_LOW: u32 = 85;

pub const PLAYER_VARIANCE_HIGH: u32 = 115;

/// Enemy attacks are noisier: 80% to 120%.
pub const ENEMY_VARIANCE_LOW: u32 = 80;

pub const ENEMY_VARIANCE_HIGH: u32 = 120;

/// Special abilities swing in a narrower band, 90% to 110%, and never crit.
pub const SPECIAL_VARIANCE_LOW: u32 = 90;

pub const SPECIAL_VARIANCE_HIGH: u32 = 110;

/// A roll above this (out of 100) is a player critical hit: a 15% chance.
pub const PLAYER_CRIT_THRESHOLD: u32 = 85;

/// A roll above this (out of 100) is an enemy critical hit: an 8% chance.
pub const ENEMY_CRIT_THRESHOLD: u32 = 92;

/// The action the player chose for one turn.
#[derive(Clone, Copy, Debug, PartialEq, Eq, Structural)]
pub enum BattleAction {
    Attack,
    SpecialAbility,
    UsePotion,
    OpenInventory,
}

/// A discrete item effect the inventory collaborator hands over when the
/// player uses a potion or picks something from the inventory.
#[derive(Clone, Copy, Debug, PartialEq, Eq, Structural)]
pub enum ItemEffect {
    RestoreHealth(u32),
    RestoreResource(u32),
}

/// Whether the chosen action consumed the turn. A failed special-ability
/// attempt or a cancelled inventory browse costs nothing: the resolver
/// re-prompts within the same turn.
#[derive(Clone, Copy, Debug, PartialEq, Eq, Structural)]
pub enum TurnResolution {
    Consumed,
    NotConsumed,
}

/// The two terminal states of a battle; no other exit exists.
#[derive(Clone, Copy, Debug, PartialEq, Eq, Structural)]
pub enum BattleOutcome {
    Victory,
    Defeat,
}

/// Base damage scaled by a variance factor given in whole percent,
/// truncated to an integer.
pub open spec fn varied(base: u32, pct: u32) -> u32 {
    ((base * pct) / 100) as u32
}

/// A critical hit multiplies the already-variance-adjusted damage by 1.5,
/// truncated to an integer.
pub open spec fn with_crit(damage: u32) -> u32 {
    ((damage * 3) / 2) as u32
}

/// The damage of one basic attack, given the base damage, the variance
/// percentage drawn, and whether the critical-hit roll succeeded.
pub open spec fn hit_damage(base: u32, pct: u32, crit: bool) -> u32 {
    if crit {
        with_crit(varied(base, pct))
    } else {
        varied(base, pct)
    }
}

/// Applies variance and the optional critical-hit multiplier to a base
/// damage value. Any hit of at least 2 base damage at 80% variance or more
/// still lands at least 1 damage, so battles make progress.
pub fn compute_hit(base: u32, pct: u32, crit: bool) -> (d: u32)
    requires
        base <= ATTACK_CAP,
        pct <= 120,
    ensures
        d == hit_damage(base, pct, crit),
        base >= 2 && pct >= 80 ==> d >= 1,
{
    proof {
        assert(base * pct <= 960000000) by (nonlinear_arith)
            requires
                base <= 8000000,
                pct <= 120,
        ;
        assert(base >= 2 && pct >= 80 ==> base * pct >= 160) by (nonlinear_arith);
    }
    let v = base * pct / 100;
    if crit {
        v * 3 / 2
    } else {
        v
    }
}

/// Which terminal state, if any, the given pair of fighters is in: the
/// battle ends the moment one side's health reaches zero, the enemy checked
/// first because the player acts first.
pub open spec fn spec_status(player: FighterModel, enemy: FighterModel) -> Option<BattleOutcome> {
    if enemy.health == 0 {
        Some(BattleOutcome::Victory)
    } else if player.health == 0 {
        Some(BattleOutcome::Defeat)
    } else {
        None
    }
}

/// Reports whether the battle has reached a terminal state.
pub fn battle_status<F: Fighter>(player: &F, enemy: &Enemy) -> (r: Option<BattleOutcome>)
    ensures
        r == spec_status(player.model(), enemy.model()),
{
    if !enemy.is_alive() {
        Some(BattleOutcome::Victory)
    } else if !player.is_alive() {
        Some(BattleOutcome::Defeat)
    } else {
        None
    }
}

/// One basic attack by the player, as `player_turn` resolves it: the enemy
/// takes a variance- and crit-adjusted hit, the player is untouched.
pub open spec fn attack_step(
    p0: FighterModel,
    e0: FighterModel,
    p1: FighterModel,
    e1: FighterModel,
) -> bool {
    &&& p1 == p0
    &&& exists|pct: u32, crit: bool|
        {
            &&& PLAYER_VARIANCE_LOW <= pct <= PLAYER_VARIANCE_HIGH
            &&& e1 == damaged(e0, hit_damage(p0.base_attack, pct, crit))
        }
}

/// One successful special ability, as `player_turn` resolves it: the cost is
/// spent and the enemy takes a hit under the narrow band, never critical.
pub open spec fn special_step(
    p0: FighterModel,
    e0: FighterModel,
    p1: FighterModel,
    e1: FighterModel,
) -> bool {
    &&& can_special(p0)
    &&& p1 == (FighterModel { resource: pool_spent(p0, p0.special_cost), ..p0 })
    &&& exists|pct: u32|
        {
            &&& SPECIAL_VARIANCE_LOW <= pct <= SPECIAL_VARIANCE_HIGH
            &&& e1 == damaged(e0, varied(p0.special_damage, pct))
        }
}

/// One successful potion or inventory use, as `player_turn` resolves it:
/// some discrete effect restores the player, the enemy is untouched.
pub open spec fn item_step(
    p0: FighterModel,
    e0: FighterModel,
    p1: FighterModel,
    e1: FighterModel,
) -> bool {
    &&& e1 == e0
    &&& exists|amount: u32| p1 == healed(p0, amount) || p1 == restored(p0, amount)
}

/// Any turn-consuming player action.
pub open spec fn player_action_step(
    p0: FighterModel,
    e0: FighterModel,
    p1: FighterModel,
    e1: FighterModel,
) -> bool {
    ||| attack_step(p0, e0, p1, e1)
    ||| special_step(p0, e0, p1, e1)
    ||| item_step(p0, e0, p1, e1)
}

/// One enemy retaliation, as `enemy_turn` resolves it: the player takes a
/// hit under the enemy's variance band and critical roll.
pub open spec fn enemy_hit_step(enemy: FighterModel, p0: FighterModel, p1: FighterModel) -> bool {
    exists|pct: u32, crit: bool|
        {
            &&& ENEMY_VARIANCE_LOW <= pct <= ENEMY_VARIANCE_HIGH
            &&& p1 == damaged(p0, hit_damage(enemy.base_attack, pct, crit))
        }
}

/// One full battle round, fought only while both sides live: a
/// turn-consuming player action and then, when the enemy survives it, one
/// enemy hit. An enemy that dies to the action never retaliates.
pub open spec fn battle_round(
    p0: FighterModel,
    e0: FighterModel,
    p1: FighterModel,
    e1: FighterModel,
) -> bool {
    &&& p0.health > 0
    &&& e0.health > 0
    &&& exists|pm: FighterModel|
        {
            &&& player_action_step(p0, e0, pm, e1)
            &&& if e1.health == 0 {
                p1 == pm
            } else {
                enemy_hit_step(e1, pm, p1)
            }
        }
}

/// The final pair of fighter states follows from the initial pair by
/// exactly `n` battle rounds.
pub open spec fn battle_reachable_in(
    p0: FighterModel,
    e0: FighterModel,
    p1: FighterModel,
    e1: FighterModel,
    n: nat,
) -> bool
    decreases n,
{
    if n == 0 {
        p1 == p0 && e1 == e0
    } else {
        exists|pm: FighterModel, em: FighterModel|
            {
                &&& battle_round(p0, e0, pm, em)
                &&& battle_reachable_in(pm, em, p1, e1, (n - 1) as nat)
            }
    }
}

/// The final pair of fighter states follows from the initial pair by some
/// finite chain of battle rounds, each obeying the per-turn contracts.
/// Turn attempts that consume nothing (a failed special, a cancelled
/// browse) preserve the state exactly, so they need no link of their own.
pub open spec fn battle_reachable(
    p0: FighterModel,
    e0: FighterModel,
    p1: FighterModel,
    e1: FighterModel,
) -> bool {
    exists|n: nat| battle_reachable_in(p0, e0, p1, e1, n)
}

proof fn lemma_reachable_refl(p0: FighterModel, e0: FighterModel)
    ensures
        battle_reachable(p0, e0, p0, e0),
{
    assert(battle_reachable_in(p0, e0, p0, e0, 0));
}

proof fn lemma_reachable_extend_in(
    p0: FighterModel,
    e0: FighterModel,
    p1: FighterModel,
    e1: FighterModel,
    p2: FighterModel,
    e2: FighterModel,
    n: nat,
)
    requires
        battle_reachable_in(p0, e0, p1, e1, n),
        battle_round(p1, e1, p2, e2),
    ensures
        battle_reachable_in(p0, e0, p2, e2, (n + 1) as nat),
    decreases n,
{
    if n == 0 {
        assert(battle_reachable_in(p2, e2, p2, e2, 0));
    } else {
        let (pm, em) = choose|pm: FighterModel, em: FighterModel|
            {
                &&& battle_round(p0, e0, pm, em)
                &&& battle_reachable_in(pm, em, p1, e1, (n - 1) as nat)
            };
        lemma_reachable_extend_in(pm, em, p1, e1, p2, e2, (n - 1) as nat);
    }
}

/// Appending one more round to a reachable pair keeps it reachable.
proof fn lemma_reachable_extend(
    p0: FighterModel,
    e0: FighterModel,
    p1: FighterModel,
    e1: FighterModel,
    p2: FighterModel,
    e2: FighterModel,
)
    requires
        battle_reachable(p0, e0, p1, e1),
        battle_round(p1, e1, p2, e2),
    ensures
        battle_reachable(p0, e0, p2, e2),
{
    let n = choose|n: nat| battle_reachable_in(p0, e0, p1, e1, n);
    lemma_reachable_extend_in(p0, e0, p1, e1, p2, e2, n);
}

/// Resolves one player action. An attack damages the enemy under player
/// variance and the player critical roll; a special ability, when the
/// resource suffices, spends it and damages the enemy under the narrow
/// variance band without criticals, and otherwise changes nothing and does
/// not consume the turn; a potion or inventory effect, when one is handed
/// over, restores the player, and a missing one (no potion, or a cancelled
/// browse) changes nothing and does not consume the turn.
pub fn player_turn<F: Fighter>(
    player: &mut F,
    enemy: &mut Enemy,
    action: BattleAction,
    item: Option<ItemEffect>,
    rng: &mut rand::rngs::StdRng,
) -> (r: TurnResolution)
    requires
        old(player).inv(),
        old(enemy).inv(),
    ensures
        final(player).inv(),
        final(enemy).inv(),
        action is Attack ==> {
            &&& r is Consumed
            &&& attack_step(
                old(player).model(),
                old(enemy).model(),
                final(player).model(),
                final(enemy).model(),
            )
        },
        action is SpecialAbility && can_special(old(player).model()) ==> {
            &&& r is Consumed
            &&& special_step(
                old(player).model(),
                old(enemy).model(),
                final(player).model(),
                final(enemy).model(),
            )
        },
        action is SpecialAbility && !can_special(old(player).model()) ==> {
            &&& r is NotConsumed
            &&& final(player).model() == old(player).model()
            &&& final(enemy).model() == old(enemy).model()
        },
        action is UsePotion || action is OpenInventory ==> {
            &&& final(enemy).model() == old(enemy).model()
            &&& match item {
                Some(ItemEffect::RestoreHealth(amount)) => {
                    &&& r is Consumed
                    &&& final(player).model() == healed(old(player).model(), amount)
                },
                Some(ItemEffect::RestoreResource(amount)) => {
                    &&& r is Consumed
                    &&& final(player).model() == restored(old(player).model(), amount)
                },
                None => {
                    &&& r is NotConsumed
                    &&& final(player).model() == old(player).model()
                },
            }
        },
        final(player).model().health >= old(player).model().health,
        final(enemy).model().health <= old(enemy).model().health,
        r is Consumed && (action is Attack || action is SpecialAbility)
            && old(enemy).model().health > 0 ==> final(enemy).model().health < old(
            enemy,
        ).model().health,
{
    match action {
        BattleAction::Attack => {
            proof {
                player.lemma_inv();
            }
            let base = player.attack();
            let pct = roll(rng, PLAYER_VARIANCE_LOW, PLAYER_VARIANCE_HIGH);
            let crit_roll = roll(rng, 1, 100);
            let crit = crit_roll > PLAYER_CRIT_THRESHOLD;
            let dmg = compute_hit(base, pct, crit);
            enemy.take_damage(dmg);
            TurnResolution::Consumed
        },
        BattleAction::SpecialAbility => {
            proof {
                player.lemma_inv();
            }
            match player.special_ability() {
                Some(base) => {
                    let pct = roll(rng, SPECIAL_VARIANCE_LOW, SPECIAL_VARIANCE_HIGH);
                    let dmg = compute_hit(base, pct, false);
                    enemy.take_damage(dmg);
                    TurnResolution::Consumed
                },
                None => TurnResolution::NotConsumed,
            }
        },
        BattleAction::UsePotion | BattleAction::OpenInventory => {
            match item {
                Some(ItemEffect::RestoreHealth(amount)) => {
                    proof {
                        player.lemma_inv();
                    }
                    player.heal(amount);
                    TurnResolution::Consumed
                },
                Some(ItemEffect::RestoreResource(amount)) => {
                    proof {
                        player.lemma_inv();
                    }
                    let cur = player.get_resource();
                    let max = player.get_max_resource();
                    let target = if amount > max - cur {
                        max
                    } else {
                        cur + amount
                    };
                    player.set_resource(target);
                    TurnResolution::Consumed
                },
                None => TurnResolution::NotConsumed,
            }
        },
    }
}

/// Resolves the enemy's retaliation: one basic attack on the player under
/// enemy variance and the enemy critical roll. An attacking enemy always
/// deals at least 1 damage, so a battle cannot stall.
pub fn enemy_turn<F: Fighter>(enemy: &Enemy, player: &mut F, rng: &mut rand::rngs::StdRng)
    requires
        enemy.inv(),
        old(player).inv(),
    ensures
        final(player).inv(),
        enemy_hit_step(enemy.model(), old(player).model(), final(player).model()),
        old(player).model().health > 0 ==> final(player).model().health < old(
            player,
        ).model().health,
{
    proof {
        enemy.lemma_inv();
    }
    let base = enemy.attack();
    let pct = roll(rng, ENEMY_VARIANCE_LOW, ENEMY_VARIANCE_HIGH);
    let crit_roll = roll(rng, 1, 100);
    let crit = crit_roll > ENEMY_CRIT_THRESHOLD;
    let dmg = compute_hit(base, pct, crit);
    player.take_damage(dmg);
}

/// Runs one battle to completion and returns its outcome. Actions are taken
/// from the script in order; when the script runs out, the player keeps
/// attacking. Every battle between two live fighters terminates: each
/// scripted entry is handed out once, and beyond the script every round
/// strictly lowers the two sides' combined health.
pub fn run_battle<F: Fighter>(
    player: &mut F,
    enemy: &mut Enemy,
    script: &Vec<(BattleAction, Option<ItemEffect>)>,
    rng: &mut rand::rngs::StdRng,
) -> (r: BattleOutcome)
    requires
        old(player).inv(),
        old(enemy).inv(),
        old(player).model().health > 0,
        old(enemy).model().health > 0,
    ensures
        final(player).inv(),
        final(enemy).inv(),
        battle_reachable(
            old(player).model(),
            old(enemy).model(),
            final(player).model(),
            final(enemy).model(),
        ),
        r is Victory <==> final(enemy).model().health == 0,
        r is Defeat <==> final(player).model().health == 0,
        r is Victory ==> final(player).model().health > 0,
        r is Defeat ==> final(enemy).model().health > 0,
{
    let ghost p0 = player.model();
    let ghost e0 = enemy.model();
    proof {
        lemma_reachable_refl(p0, e0);
    }
    let mut i: usize = 0;
    loop
        invariant
            player.inv(),
            enemy.inv(),
            player.model().health > 0,
            enemy.model().health > 0,
            i <= script.len(),
            p0 == old(player).model(),
            e0 == old(enemy).model(),
            battle_reachable(p0, e0, player.model(), enemy.model()),
        decreases script.len() - i, player.model().health + enemy.model().health,
    {
        let ghost p_cur = player.model();
        let ghost e_cur = enemy.model();
        let action: BattleAction;
        let item: Option<ItemEffect>;
        if i < script.len() {
            let entry = script[i];
            action = entry.0;
            item = entry.1;
            i = i + 1;
        } else {
            action = BattleAction::Attack;
            item = None;
        }
        let res = player_turn(player, enemy, action, item, rng);
        let ghost p_acted = player.model();
        let ghost e_acted = enemy.model();
        proof {
            if res is Consumed {
                match action {
                    BattleAction::Attack => {
                        assert(attack_step(p_cur, e_cur, p_acted, e_acted));
                    },
                    BattleAction::SpecialAbility => {
                        assert(special_step(p_cur, e_cur, p_acted, e_acted));
                    },
                    BattleAction::UsePotion | BattleAction::OpenInventory => {
                        match item {
                            Some(ItemEffect::RestoreHealth(amount)) => {
                                assert(p_acted == healed(p_cur, amount));
                                assert(item_step(p_cur, e_cur, p_acted, e_acted));
                            },
                            Some(ItemEffect::RestoreResource(amount)) => {
                                assert(p_acted == restored(p_cur, amount));
                                assert(item_step(p_cur, e_cur, p_acted, e_acted));
                            },
                            None => {
                                assert(false);
                            },
                        }
                    },
                }
                assert(player_action_step(p_cur, e_cur, p_acted, e_acted));
            }
        }
        if !enemy.is_alive() {
            proof {
                assert(battle_round(p_cur, e_cur, p_acted, e_acted));
                lemma_reachable_extend(p0, e0, p_cur, e_cur, p_acted, e_acted);
            }
            return BattleOutcome::Victory;
        }
        match res {
            TurnResolution::Consumed => {
                enemy_turn(enemy, player, rng);
                proof {
                    assert(battle_round(p_cur, e_cur, player.model(), e_acted));
                    lemma_reachable_extend(p0, e0, p_cur, e_cur, player.model(), e_acted);
                }
                if !player.is_alive() {
                    return BattleOutcome::Defeat;
                }
            },
            TurnResolution::NotConsumed => {
            },
        }
    }
}

} // verus!
