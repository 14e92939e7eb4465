use vstd::prelude::*;

use crate::enemy::{dragon_model, goblin_model, orc_model, Enemy};
use crate::rng::roll;
use crate::traits::{Character, FighterModel};

verus! {

/// Highest encounter index accepted; keeps every derived enemy level at or
/// under the level cap.
pub const ENCOUNTER_CAP: u32 = 1000000;

/// Every 5th encounter is a boss battle against a dragon.
pub const BOSS_INTERVAL: u32 = 5;

/// Weighted enemy selection for ordinary encounters, rolled out of 100:
/// rolls up to this bound give a goblin (a 50% chance), ...
pub const GOBLIN_WEIGHT_BOUND: u32 = 50;

/// ... rolls above the goblin bound up to this one give an orc (35%), and
/// anything higher gives a dragon (15%).
pub const ORC_WEIGHT_BOUND: u32 = 85;

/// The level a boss dragon has at the given encounter.
pub open spec fn boss_level(encounter: u32) -> u32 {
    (encounter / BOSS_INTERVAL + 2) as u32
}

/// The level an ordinary enemy has at the given encounter.
pub open spec fn scaled_level(encounter: u32) -> u32 {
    (1 + encounter / 2) as u32
}

/// The enemy an encounter and a weighted roll determine: every 5th
/// encounter is a boss dragon at an increasing level regardless of the
/// roll; otherwise the roll picks goblin, orc or dragon at the scaled
/// level.
pub open spec fn spec_spawn(encounter: u32, weighted_roll: u32) -> FighterModel {
    if encounter % BOSS_INTERVAL == 0 {
        dragon_model(boss_level(encounter))
    } else if weighted_roll <= GOBLIN_WEIGHT_BOUND {
        goblin_model(scaled_level(encounter))
    } else if weighted_roll <= ORC_WEIGHT_BOUND {
        orc_model(scaled_level(encounter))
    } else {
        dragon_model(scaled_level(encounter))
    }
}

/// The deterministic half of enemy scaling: which enemy the given
/// encounter index and weighted roll produce. On a boss encounter the
/// dedicated dragon branch decides regardless of the roll; on an ordinary
/// one the level scales with the encounter and the roll alone picks the
/// kind, so a dragon appears exactly when the roll selects one.
pub fn spawn_from_roll(encounter: u32, weighted_roll: u32) -> (e: Enemy)
    requires
        1 <= encounter <= ENCOUNTER_CAP,
        1 <= weighted_roll <= 100,
    ensures
        e.inv(),
        e.model() == spec_spawn(encounter, weighted_roll),
        encounter % BOSS_INTERVAL == 0 ==> e.model() == dragon_model(boss_level(encounter)),
        encounter % BOSS_INTERVAL != 0 ==> {
            &&& e.model().level == scaled_level(encounter)
            &&& (e.model().name == "Goblin"@ <==> weighted_roll <= GOBLIN_WEIGHT_BOUND)
            &&& (e.model().name == "Orc"@ <==> GOBLIN_WEIGHT_BOUND < weighted_roll
                <= ORC_WEIGHT_BOUND)
            &&& (e.model().name == "Dragon"@ <==> weighted_roll > ORC_WEIGHT_BOUND)
        },
{
    proof {
        reveal_strlit("Goblin");
        reveal_strlit("Orc");
        reveal_strlit("Dragon");
        assert("Goblin"@[0] == 'G');
        assert("Orc"@[0] == 'O');
        assert("Dragon"@[0] == 'D');
    }
    if encounter % BOSS_INTERVAL == 0 {
        let level = encounter / BOSS_INTERVAL + 2;
        return Enemy::dragon(level);
    }
    let level = 1 + encounter / 2;
    if weighted_roll <= GOBLIN_WEIGHT_BOUND {
        Enemy::goblin(level)
    } else if weighted_roll <= ORC_WEIGHT_BOUND {
        Enemy::orc(level)
    } else {
        Enemy::dragon(level)
    }
}

/// The sole construction entry point for adversaries: spawns the enemy for
/// the given encounter, drawing the weighted kind selection from the
/// injected generator. A boss encounter always takes the dedicated dragon
/// branch; an ordinary one yields one of the three kinds at the scaled
/// level, whichever way the roll falls.
pub fn spawn(encounter: u32, rng: &mut rand::rngs::StdRng) -> (e: Enemy)
    requires
        1 <= encounter <= ENCOUNTER_CAP,
    ensures
        e.inv(),
        encounter % BOSS_INTERVAL == 0 ==> e.model() == dragon_model(boss_level(encounter)),
        encounter % BOSS_INTERVAL != 0 ==> e.model().level == scaled_level(encounter),
        exists|weighted_roll: u32|
            1 <= weighted_roll <= 100 && e.model() == spec_spawn(encounter, weighted_roll),
{
    let weighted_roll = roll(rng, 1, 100);
    spawn_from_roll(encounter, weighted_roll)
}

} // verus!
