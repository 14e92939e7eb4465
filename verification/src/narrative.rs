use vstd::prelude::*;

use crate::rng::roll;
use crate::traits::{damaged, healed, Character, Fighter};

verus! {

/// How much of the resource the runes claim to restore.
pub const RUNE_RESOURCE_GAIN: u32 = 20;

/// How much health preparing for the final battle restores.
pub const PREPARE_HEAL: u32 = 30;

/// Fixed and randomly chosen verses that frame the adventure.
pub struct Narrative;

/// The travel verse the given draw selects.
pub open spec fn travel_verse_text(k: u32) -> Seq<char> {
    if k == 0 {
        "The path winds through mist and ancient stone."@
    } else if k == 1 {
        "Deep in these woods, spirits watch from the shadows."@
    } else if k == 2 {
        "The wind carries whispers of those who fell before you."@
    } else if k == 3 {
        "Beneath cold stars, the journey stretches onward."@
    } else {
        "Through valleys carved by time, you walk the path of heroes."@
    }
}

/// The victory verse the given draw selects.
pub open spec fn victory_verse_text(k: u32) -> Seq<char> {
    if k == 0 {
        "Steel sings its song of finality, and silence returns."@
    } else if k == 1 {
        "Darkness retreats before your determination."@
    } else if k == 2 {
        "Your strike was swift and certain."@
    } else {
        "With each vanquished foe, your resolve strengthens."@
    }
}

impl Narrative {
    pub fn opening_verse() -> (r: &'static str)
        ensures
            r@ == "In the twilight hours, a hero rises. The cursed lands await liberation."@,
    {
        "In the twilight hours, a hero rises. The cursed lands await liberation."
    }

    /// One of five travel verses, chosen by the injected generator.
    pub fn random_travel_verse(rng: &mut rand::rngs::StdRng) -> (r: &'static str)
        ensures
            exists|k: u32| k < 5 && r@ == travel_verse_text(k),
    {
        let k = roll(rng, 0, 4);
        let r: &'static str = if k == 0 {
            "The path winds through mist and ancient stone."
        } else if k == 1 {
            "Deep in these woods, spirits watch from the shadows."
        } else if k == 2 {
            "The wind carries whispers of those who fell before you."
        } else if k == 3 {
            "Beneath cold stars, the journey stretches onward."
        } else {
            "Through valleys carved by time, you walk the path of heroes."
        };
        assert(r@ == travel_verse_text(k));
        r
    }

    /// One of four victory verses, chosen by the injected generator.
    pub fn victory_verse(rng: &mut rand::rngs::StdRng) -> (r: &'static str)
        ensures
            exists|k: u32| k < 4 && r@ == victory_verse_text(k),
    {
        let k = roll(rng, 0, 3);
        let r: &'static str = if k == 0 {
            "Steel sings its song of finality, and silence returns."
        } else if k == 1 {
            "Darkness retreats before your determination."
        } else if k == 2 {
            "Your strike was swift and certain."
        } else {
            "With each vanquished foe, your resolve strengthens."
        };
        assert(r@ == victory_verse_text(k));
        r
    }

    pub fn death_verse() -> (r: &'static str)
        ensures
            r@ == "The ember fades. Heroes rise from ashes and defeat."@,
    {
        "The ember fades. Heroes rise from ashes and defeat."
    }

    pub fn boss_approach_verse() -> (r: &'static str)
        ensures
            r@ == "The air grows heavy with ancient malevolence. Destiny approaches."@,
    {
        "The air grows heavy with ancient malevolence. Destiny approaches."
    }
}

/// Where an encounter takes place; every 5th encounter is the dragon's lair.
#[derive(Clone, Copy, Debug, PartialEq, Eq, Structural)]
pub enum Location {
    DarkForest,
    AbandonedRuins,
    MountainPass,
    HauntedCrypt,
    VolcanicCavern,
    FrozenWastes,
    ShadowMarsh,
    DragonLair,
}

/// The ordinary (non-lair) location the given draw selects.
pub open spec fn ordinary_location(k: u32) -> Location {
    if k == 0 {
        Location::DarkForest
    } else if k == 1 {
        Location::AbandonedRuins
    } else if k == 2 {
        Location::MountainPass
    } else if k == 3 {
        Location::HauntedCrypt
    } else if k == 4 {
        Location::VolcanicCavern
    } else if k == 5 {
        Location::FrozenWastes
    } else {
        Location::ShadowMarsh
    }
}

/// The scene-setting text of a location.
pub open spec fn description_text(l: Location) -> Seq<char> {
    match l {
        Location::DarkForest => "THE DARK FOREST: ancient trees loom overhead, and glowing eyes watch from the shadows."@,
        Location::AbandonedRuins => "ABANDONED RUINS: crumbling pillars mark what was once a grand temple, heavy with forgotten magic."@,
        Location::MountainPass => "MOUNTAIN PASS: a treacherous path winds between jagged peaks where bitter winds howl."@,
        Location::HauntedCrypt => "HAUNTED CRYPT: stone tombs line the walls, and spectral moans drift through the air."@,
        Location::VolcanicCavern => "VOLCANIC CAVERN: rivers of molten lava illuminate the darkness with an infernal glow."@,
        Location::FrozenWastes => "FROZEN WASTES: an endless expanse of ice and snow stretches before you."@,
        Location::ShadowMarsh => "SHADOW MARSH: thick fog obscures your vision as you wade through murky waters."@,
        Location::DragonLair => "DRAGON'S LAIR: scorched earth surrounds a massive cavern where legends are born or die."@,
    }
}

/// The line that announces the encounter at a location.
pub open spec fn encounter_intro_text(l: Location) -> Seq<char> {
    match l {
        Location::DarkForest => "Something moves between the trees..."@,
        Location::AbandonedRuins => "A dark figure emerges from the shadows of the ruins..."@,
        Location::MountainPass => "A roar echoes from the cliffs above..."@,
        Location::HauntedCrypt => "The dead do not rest here..."@,
        Location::VolcanicCavern => "A beast born of flame approaches..."@,
        Location::FrozenWastes => "An icy horror materializes from the blizzard..."@,
        Location::ShadowMarsh => "The waters ripple as something rises..."@,
        Location::DragonLair => "The ground shakes. Wings unfold in the darkness. IT AWAKENS."@,
    }
}

/// The actions a location offers before its battle.
pub open spec fn location_actions(l: Location) -> Seq<LocationAction> {
    match l {
        Location::DarkForest => seq![
            LocationAction::Search,
            LocationAction::Rest,
            LocationAction::Investigate,
        ],
        Location::AbandonedRuins => seq![
            LocationAction::Search,
            LocationAction::ReadRunes,
            LocationAction::Investigate,
        ],
        Location::MountainPass => seq![LocationAction::Search, LocationAction::Rest],
        Location::HauntedCrypt => seq![
            LocationAction::Search,
            LocationAction::Pray,
            LocationAction::Investigate,
        ],
        Location::VolcanicCavern => seq![LocationAction::Search, LocationAction::Investigate],
        Location::FrozenWastes => seq![LocationAction::Search, LocationAction::Rest],
        Location::ShadowMarsh => seq![LocationAction::Search, LocationAction::Investigate],
        Location::DragonLair => seq![LocationAction::Search, LocationAction::Prepare],
    }
}

impl Location {
    /// The location of the given encounter: boss encounters always take
    /// place in the dragon's lair, and any other draws one of the seven
    /// ordinary locations.
    pub fn random(encounter: u32, rng: &mut rand::rngs::StdRng) -> (r: Location)
        ensures
            encounter > 0 && encounter % 5 == 0 ==> r == Location::DragonLair,
            !(encounter > 0 && encounter % 5 == 0) ==> exists|k: u32|
                k < 7 && r == ordinary_location(k),
    {
        if encounter > 0 && encounter % 5 == 0 {
            return Location::DragonLair;
        }
        let k = roll(rng, 0, 6);
        let r = if k == 0 {
            Location::DarkForest
        } else if k == 1 {
            Location::AbandonedRuins
        } else if k == 2 {
            Location::MountainPass
        } else if k == 3 {
            Location::HauntedCrypt
        } else if k == 4 {
            Location::VolcanicCavern
        } else if k == 5 {
            Location::FrozenWastes
        } else {
            Location::ShadowMarsh
        };
        assert(r == ordinary_location(k));
        r
    }

    pub fn description(&self) -> (r: &'static str)
        ensures
            r@ == description_text(*self),
    {
        match self {
            Location::DarkForest => "THE DARK FOREST: ancient trees loom overhead, and glowing eyes watch from the shadows.",
            Location::AbandonedRuins => "ABANDONED RUINS: crumbling pillars mark what was once a grand temple, heavy with forgotten magic.",
            Location::MountainPass => "MOUNTAIN PASS: a treacherous path winds between jagged peaks where bitter winds howl.",
            Location::HauntedCrypt => "HAUNTED CRYPT: stone tombs line the walls, and spectral moans drift through the air.",
            Location::VolcanicCavern => "VOLCANIC CAVERN: rivers of molten lava illuminate the darkness with an infernal glow.",
            Location::FrozenWastes => "FROZEN WASTES: an endless expanse of ice and snow stretches before you.",
            Location::ShadowMarsh => "SHADOW MARSH: thick fog obscures your vision as you wade through murky waters.",
            Location::DragonLair => "DRAGON'S LAIR: scorched earth surrounds a massive cavern where legends are born or die.",
        }
    }

    pub fn encounter_intro(&self) -> (r: &'static str)
        ensures
            r@ == encounter_intro_text(*self),
    {
        match self {
            Location::DarkForest => "Something moves between the trees...",
            Location::AbandonedRuins => "A dark figure emerges from the shadows of the ruins...",
            Location::MountainPass => "A roar echoes from the cliffs above...",
            Location::HauntedCrypt => "The dead do not rest here...",
            Location::VolcanicCavern => "A beast born of flame approaches...",
            Location::FrozenWastes => "An icy horror materializes from the blizzard...",
            Location::ShadowMarsh => "The waters ripple as something rises...",
            Location::DragonLair => "The ground shakes. Wings unfold in the darkness. IT AWAKENS.",
        }
    }

    pub fn available_actions(&self) -> (r: Vec<LocationAction>)
        ensures
            r@ == location_actions(*self),
    {
        let mut v: Vec<LocationAction> = Vec::new();
        v.push(LocationAction::Search);
        match self {
            Location::DarkForest => {
                v.push(LocationAction::Rest);
                v.push(LocationAction::Investigate);
            },
            Location::AbandonedRuins => {
                v.push(LocationAction::ReadRunes);
                v.push(LocationAction::Investigate);
            },
            Location::MountainPass => {
                v.push(LocationAction::Rest);
            },
            Location::HauntedCrypt => {
                v.push(LocationAction::Pray);
                v.push(LocationAction::Investigate);
            },
            Location::VolcanicCavern => {
                v.push(LocationAction::Investigate);
            },
            Location::FrozenWastes => {
                v.push(LocationAction::Rest);
            },
            Location::ShadowMarsh => {
                v.push(LocationAction::Investigate);
            },
            Location::DragonLair => {
                v.push(LocationAction::Prepare);
            },
        }
        assert(v@ =~= location_actions(*self));
        v
    }
}

/// Something to do at a location before the battle.
#[derive(Clone, Copy, Debug, PartialEq, Eq, Structural)]
pub enum LocationAction {
    Search,
    Rest,
    Investigate,
    ReadRunes,
    Pray,
    Prepare,
}

/// What executing a location action did; the caller renders it.
#[derive(Clone, Copy, Debug, PartialEq, Eq, Structural)]
pub enum ActionOutcome {
    /// A hidden cache: this much gold was added.
    GoldFound(u32),
    /// The search turned up nothing.
    NothingFound,
    /// A trap: this much damage was taken.
    TrapSprung(u32),
    /// A brief rest restored this much health.
    Rested(u32),
    /// Strange markings on the ground; nothing changes.
    MarkingsSeen,
    /// Traces of an earlier battle; nothing changes.
    BattleTracesSeen,
    /// A natural spring restored a little health.
    SpringFound,
    /// The lay of the land was learned; nothing changes.
    LandScouted,
    /// The runes resonated; only the tale of the named gain is told.
    RunesResonated(u32),
    /// The runes stayed silent; nothing changes.
    RunesFaded,
    /// A prayer was answered with this much healing.
    PrayerAnswered(u32),
    /// The gods may be watching; nothing changes.
    PrayerWatched,
    /// Only silence; nothing changes.
    PrayerUnanswered,
    /// Nerves steeled before the final battle; a fixed heal.
    BattleReady,
}

/// How much health the investigate action's spring restores.
pub const SPRING_HEAL: u32 = 10;

impl LocationAction {
    pub fn name(&self) -> (r: &'static str)
        ensures
            match *self {
                LocationAction::Search => r@ == "Search for treasures"@,
                LocationAction::Rest => r@ == "Rest and gather strength"@,
                LocationAction::Investigate => r@ == "Investigate your surroundings"@,
                LocationAction::ReadRunes => r@ == "Attempt to read the ancient runes"@,
                LocationAction::Pray => r@ == "Pray to the forgotten gods"@,
                LocationAction::Prepare => r@ == "Prepare for the ultimate battle"@,
            },
    {
        match self {
            LocationAction::Search => "Search for treasures",
            LocationAction::Rest => "Rest and gather strength",
            LocationAction::Investigate => "Investigate your surroundings",
            LocationAction::ReadRunes => "Attempt to read the ancient runes",
            LocationAction::Pray => "Pray to the forgotten gods",
            LocationAction::Prepare => "Prepare for the ultimate battle",
        }
    }

    /// Carries the action out on the player and the purse and reports what
    /// happened. Searching can find gold, find nothing, or spring a trap;
    /// resting and praying can heal; investigating can find a spring;
    /// reading the runes only tells a tale; preparing always heals.
    pub fn execute<F: Fighter>(
        &self,
        player: &mut F,
        gold: &mut u32,
        rng: &mut rand::rngs::StdRng,
    ) -> (r: ActionOutcome)
        requires
            old(player).inv(),
            *old(gold) <= u32::MAX - 30,
        ensures
            final(player).inv(),
            *self is Search ==> match r {
                ActionOutcome::GoldFound(g) => {
                    &&& 10 <= g <= 30
                    &&& *final(gold) == *old(gold) + g
                    &&& final(player).model() == old(player).model()
                },
                ActionOutcome::NothingFound => {
                    &&& *final(gold) == *old(gold)
                    &&& final(player).model() == old(player).model()
                },
                ActionOutcome::TrapSprung(d) => {
                    &&& 5 <= d <= 15
                    &&& *final(gold) == *old(gold)
                    &&& final(player).model() == damaged(old(player).model(), d)
                },
                _ => false,
            },
            *self is Rest ==> match r {
                ActionOutcome::Rested(h) => {
                    &&& 15 <= h <= 25
                    &&& *final(gold) == *old(gold)
                    &&& final(player).model() == healed(old(player).model(), h)
                },
                _ => false,
            },
            *self is Investigate ==> match r {
                ActionOutcome::MarkingsSeen | ActionOutcome::BattleTracesSeen
                    | ActionOutcome::LandScouted => {
                    &&& *final(gold) == *old(gold)
                    &&& final(player).model() == old(player).model()
                },
                ActionOutcome::SpringFound => {
                    &&& *final(gold) == *old(gold)
                    &&& final(player).model() == healed(old(player).model(), SPRING_HEAL)
                },
                _ => false,
            },
            *self is ReadRunes ==> match r {
                ActionOutcome::RunesResonated(g) => {
                    &&& g == RUNE_RESOURCE_GAIN
                    &&& *final(gold) == *old(gold)
                    &&& final(player).model() == old(player).model()
                },
                ActionOutcome::RunesFaded => {
                    &&& *final(gold) == *old(gold)
                    &&& final(player).model() == old(player).model()
                },
                _ => false,
            },
            *self is Pray ==> match r {
                ActionOutcome::PrayerAnswered(h) => {
                    &&& 20 <= h <= 40
                    &&& *final(gold) == *old(gold)
                    &&& final(player).model() == healed(old(player).model(), h)
                },
                ActionOutcome::PrayerWatched | ActionOutcome::PrayerUnanswered => {
                    &&& *final(gold) == *old(gold)
                    &&& final(player).model() == old(player).model()
                },
                _ => false,
            },
            *self is Prepare ==> match r {
                ActionOutcome::BattleReady => {
                    &&& *final(gold) == *old(gold)
                    &&& final(player).model() == healed(old(player).model(), PREPARE_HEAL)
                },
                _ => false,
            },
    {
        match self {
            LocationAction::Search => {
                let luck = roll(rng, 1, 100);
                if luck > 70 {
                    let found_gold = roll(rng, 10, 30);
                    *gold = *gold + found_gold;
                    ActionOutcome::GoldFound(found_gold)
                } else if luck > 40 {
                    ActionOutcome::NothingFound
                } else {
                    let damage = roll(rng, 5, 15);
                    player.take_damage(damage);
                    ActionOutcome::TrapSprung(damage)
                }
            },
            LocationAction::Rest => {
                let heal_amount = roll(rng, 15, 25);
                proof {
                    player.lemma_inv();
                }
                player.heal(heal_amount);
                ActionOutcome::Rested(heal_amount)
            },
            LocationAction::Investigate => {
                let discovery = roll(rng, 1, 4);
                if discovery == 1 {
                    ActionOutcome::MarkingsSeen
                } else if discovery == 2 {
                    ActionOutcome::BattleTracesSeen
                } else if discovery == 3 {
                    proof {
                        player.lemma_inv();
                    }
                    player.heal(SPRING_HEAL);
                    ActionOutcome::SpringFound
                } else {
                    ActionOutcome::LandScouted
                }
            },
            LocationAction::ReadRunes => {
                let understanding = roll(rng, 1, 100);
                if understanding > 60 {
                    ActionOutcome::RunesResonated(RUNE_RESOURCE_GAIN)
                } else {
                    ActionOutcome::RunesFaded
                }
            },
            LocationAction::Pray => {
                let blessing = roll(rng, 1, 100);
                if blessing > 75 {
                    let heal_amount = roll(rng, 20, 40);
                    proof {
                        player.lemma_inv();
                    }
                    player.heal(heal_amount);
                    ActionOutcome::PrayerAnswered(heal_amount)
                } else if blessing > 30 {
                    ActionOutcome::PrayerWatched
                } else {
                    ActionOutcome::PrayerUnanswered
                }
            },
            LocationAction::Prepare => {
                proof {
                    player.lemma_inv();
                }
                player.heal(PREPARE_HEAL);
                ActionOutcome::BattleReady
            },
        }
    }
}

/// A rare ambient event on the road.
pub struct RandomEvent;

/// The ambient event text the given draw selects.
pub open spec fn event_text(k: u32) -> Seq<char> {
    if k == 0 {
        "A shooting star streaks across the sky. You feel strangely invigorated."@
    } else if k == 1 {
        "A raven perches nearby, watching you with intelligent eyes."@
    } else if k == 2 {
        "You hear distant laughter, though no one is there..."@
    } else if k == 3 {
        "A cold wind blows, carrying whispers of forgotten names."@
    } else {
        "You notice strange mushrooms glowing faintly in the darkness."@
    }
}

impl RandomEvent {
    /// One chance in five of an ambient event; which one is drawn from the
    /// injected generator.
    pub fn try_trigger(rng: &mut rand::rngs::StdRng) -> (r: Option<String>)
        ensures
            match r {
                Some(s) => exists|k: u32| k < 5 && s@ == event_text(k),
                None => true,
            },
    {
        let trigger = roll(rng, 1, 100);
        if trigger > 80 {
            let k = roll(rng, 0, 4);
            let text: &str = if k == 0 {
                "A shooting star streaks across the sky. You feel strangely invigorated."
            } else if k == 1 {
                "A raven perches nearby, watching you with intelligent eyes."
            } else if k == 2 {
                "You hear distant laughter, though no one is there..."
            } else if k == 3 {
                "A cold wind blows, carrying whispers of forgotten names."
            } else {
                "You notice strange mushrooms glowing faintly in the darkness."
            };
            assert(text@ == event_text(k));
            Some(text.to_owned())
        } else {
            None
        }
    }
}

} // verus!
