use vstd::prelude::*;

use crate::rng::roll;
use crate::traits::{healed, restored, Character, Fighter, ResourcePool};

verus! {

/// How much health one Health Potion restores.
pub const POTION_HEAL: u32 = 30;

/// How much of the named resource one Energy Potion restores.
pub const RESOURCE_RESTORE: u32 = 40;

/// What an item is: a display name and a gold value.
pub ghost struct ItemModel {
    pub name: Seq<char>,
    pub value: u32,
}

/// An independent value object: potions and loot. The core applies potion
/// effects on behalf of the caller but does not model the inventory itself.
#[derive(Debug, Clone, PartialEq)]
pub struct Item {
    name: String,
    value: u32,
}

impl View for Item {
    type V = ItemModel;

    closed spec fn view(&self) -> ItemModel {
        ItemModel { name: self.name@, value: self.value }
    }
}

/// The loot the two random draws determine: a rarity tier from the first
/// roll (out of 100), and within the two multi-item tiers one of four items
/// from the second.
pub open spec fn spec_loot(loot_roll: u32, pick: u32) -> ItemModel {
    if loot_roll > 95 {
        ItemModel { name: "Ancient Artifact"@, value: 500 }
    } else if loot_roll > 80 {
        if pick == 0 {
            ItemModel { name: "Elven Amulet"@, value: 200 }
        } else if pick == 1 {
            ItemModel { name: "Dragon Scale"@, value: 250 }
        } else if pick == 2 {
            ItemModel { name: "Enchanted Ring"@, value: 180 }
        } else {
            ItemModel { name: "Mystic Tome"@, value: 220 }
        }
    } else if loot_roll > 50 {
        if pick == 0 {
            ItemModel { name: "Silver Dagger"@, value: 80 }
        } else if pick == 1 {
            ItemModel { name: "Gold Coin Pouch"@, value: 100 }
        } else if pick == 2 {
            ItemModel { name: "Gem"@, value: 90 }
        } else {
            ItemModel { name: "Healing Herb"@, value: 60 }
        }
    } else if loot_roll > 25 {
        ItemModel { name: "Health Potion"@, value: 50 }
    } else {
        ItemModel { name: "Energy Potion"@, value: 40 }
    }
}

impl Item {
    pub fn new(name: String, value: u32) -> (r: Item)
        ensures
            r@ == (ItemModel { name: name@, value }),
    {
        Item { name, value }
    }

    pub fn name(&self) -> (r: &str)
        ensures
            r@ == self@.name,
    {
        self.name.as_str()
    }

    pub fn value(&self) -> (r: u32)
        ensures
            r == self@.value,
    {
        self.value
    }

    /// Draws a random piece of loot: a rarity roll picks the tier, and
    /// within the rare and common tiers a second draw picks the item.
    pub fn random_loot(rng: &mut rand::rngs::StdRng) -> (r: Item)
        ensures
            exists|loot_roll: u32, pick: u32|
                1 <= loot_roll <= 100 && pick < 4 && r@ == spec_loot(loot_roll, pick),
    {
        let loot_roll = roll(rng, 1, 100);
        let pick = roll(rng, 0, 3);
        let r = if loot_roll > 95 {
            Item::new("Ancient Artifact".to_owned(), 500)
        } else if loot_roll > 80 {
            if pick == 0 {
                Item::new("Elven Amulet".to_owned(), 200)
            } else if pick == 1 {
                Item::new("Dragon Scale".to_owned(), 250)
            } else if pick == 2 {
                Item::new("Enchanted Ring".to_owned(), 180)
            } else {
                Item::new("Mystic Tome".to_owned(), 220)
            }
        } else if loot_roll > 50 {
            if pick == 0 {
                Item::new("Silver Dagger".to_owned(), 80)
            } else if pick == 1 {
                Item::new("Gold Coin Pouch".to_owned(), 100)
            } else if pick == 2 {
                Item::new("Gem".to_owned(), 90)
            } else {
                Item::new("Healing Herb".to_owned(), 60)
            }
        } else if loot_roll > 25 {
            Item::new("Health Potion".to_owned(), 50)
        } else {
            Item::new("Energy Potion".to_owned(), 40)
        };
        assert(r@ == spec_loot(loot_roll, pick));
        r
    }

    pub fn is_health_potion(&self) -> (r: bool)
        ensures
            r == (self@.name == "Health Potion"@),
    {
        self.name == "Health Potion".to_owned()
    }

    pub fn is_energy_potion(&self) -> (r: bool)
        ensures
            r == (self@.name == "Energy Potion"@),
    {
        self.name == "Energy Potion".to_owned()
    }
}

/// Whether the collection holds a Health Potion anywhere.
pub open spec fn has_health_potion(s: Seq<Item>) -> bool {
    exists|j: int| 0 <= j < s.len() && s[j]@.name == "Health Potion"@
}

/// The position of the first Health Potion in the inventory, if any.
fn find_health_potion(inventory: &Vec<Item>) -> (r: Option<usize>)
    ensures
        match r {
            Some(j) => {
                &&& j < inventory@.len()
                &&& inventory@[j as int]@.name == "Health Potion"@
                &&& forall|k: int|
                    0 <= k < j ==> inventory@[k]@.name != "Health Potion"@
            },
            None => !has_health_potion(inventory@),
        },
{
    let mut idx: usize = 0;
    while idx < inventory.len()
        invariant
            idx <= inventory@.len(),
            forall|k: int| 0 <= k < idx ==> inventory@[k]@.name != "Health Potion"@,
        decreases inventory@.len() - idx,
    {
        if inventory[idx].is_health_potion() {
            return Some(idx);
        }
        idx = idx + 1;
    }
    None
}

/// Drinks the first Health Potion in the inventory, restoring a fixed
/// amount of health, and reports whether one was found; without one,
/// nothing changes.
pub fn use_health_potion<F: Fighter>(player: &mut F, inventory: &mut Vec<Item>) -> (b: bool)
    requires
        old(player).inv(),
    ensures
        final(player).inv(),
        b == has_health_potion(old(inventory)@),
        !b ==> final(inventory)@ == old(inventory)@ && final(player).model() == old(
            player,
        ).model(),
        b ==> exists|j: int|
            {
                &&& 0 <= j < old(inventory)@.len()
                &&& old(inventory)@[j]@.name == "Health Potion"@
                &&& forall|k: int|
                    0 <= k < j ==> old(inventory)@[k]@.name != "Health Potion"@
                &&& final(inventory)@ == old(inventory)@.remove(j)
                &&& final(player).model() == healed(old(player).model(), POTION_HEAL)
            },
{
    match find_health_potion(inventory) {
        Some(pos) => {
            inventory.remove(pos);
            proof {
                player.lemma_inv();
            }
            player.heal(POTION_HEAL);
            true
        },
        None => false,
    }
}

/// What using one inventory slot did.
#[derive(Clone, Copy, Debug, PartialEq, Eq, Structural)]
pub enum ItemUse {
    HealthRestored,
    ResourceRestored,
    NotUsable,
}

/// Uses the item at the given inventory position on the player: a Health
/// Potion restores health, an Energy Potion restores the named resource
/// (both are consumed), and anything else is left in place and changes
/// nothing.
pub fn use_item_at<F: Fighter>(player: &mut F, inventory: &mut Vec<Item>, index: usize) -> (r:
    ItemUse)
    requires
        old(player).inv(),
        index < old(inventory)@.len(),
    ensures
        final(player).inv(),
        old(inventory)@[index as int]@.name == "Health Potion"@ ==> {
            &&& r is HealthRestored
            &&& final(inventory)@ == old(inventory)@.remove(index as int)
            &&& final(player).model() == healed(old(player).model(), POTION_HEAL)
        },
        old(inventory)@[index as int]@.name == "Energy Potion"@ ==> {
            &&& r is ResourceRestored
            &&& final(inventory)@ == old(inventory)@.remove(index as int)
            &&& final(player).model() == restored(old(player).model(), RESOURCE_RESTORE)
        },
        old(inventory)@[index as int]@.name != "Health Potion"@
            && old(inventory)@[index as int]@.name != "Energy Potion"@ ==> {
            &&& r is NotUsable
            &&& final(inventory)@ == old(inventory)@
            &&& final(player).model() == old(player).model()
        },
{
    proof {
        reveal_strlit("Health Potion");
        reveal_strlit("Energy Potion");
        assert("Health Potion"@[0] == 'H');
        assert("Energy Potion"@[0] == 'E');
        assert("Health Potion"@ != "Energy Potion"@);
    }
    if inventory[index].is_health_potion() {
        inventory.remove(index);
        proof {
            player.lemma_inv();
        }
        player.heal(POTION_HEAL);
        ItemUse::HealthRestored
    } else if inventory[index].is_energy_potion() {
        inventory.remove(index);
        proof {
            player.lemma_inv();
        }
        let cur = player.get_resource();
        let max = player.get_max_resource();
        let target = if RESOURCE_RESTORE > max - cur {
            max
        } else {
            cur + RESOURCE_RESTORE
        };
        player.set_resource(target);
        ItemUse::ResourceRestored
    } else {
        ItemUse::NotUsable
    }
}

/// What the out-of-battle inventory menu did with a slot: a potion drunk at
/// full capacity is a semantic failure, reported rather than wasted.
#[derive(Clone, Copy, Debug, PartialEq, Eq, Structural)]
pub enum MenuItemUse {
    HealthRestored,
    ResourceRestored,
    HealthFull,
    ResourceFull,
    NotUsable,
}

/// Uses the item at the given inventory position unless the matching pool
/// is already full: a Health Potion at full health or an Energy Potion at a
/// full pool is refused, reported, and left in place; otherwise the potion
/// is consumed as `use_item_at` does, and anything else changes nothing.
pub fn use_item_checked<F: Fighter>(
    player: &mut F,
    inventory: &mut Vec<Item>,
    index: usize,
) -> (r: MenuItemUse)
    requires
        old(player).inv(),
        index < old(inventory)@.len(),
    ensures
        final(player).inv(),
        old(inventory)@[index as int]@.name == "Health Potion"@
            && old(player).model().health < old(player).model().max_health ==> {
            &&& r is HealthRestored
            &&& final(inventory)@ == old(inventory)@.remove(index as int)
            &&& final(player).model() == healed(old(player).model(), POTION_HEAL)
        },
        old(inventory)@[index as int]@.name == "Health Potion"@
            && old(player).model().health >= old(player).model().max_health ==> {
            &&& r is HealthFull
            &&& final(inventory)@ == old(inventory)@
            &&& final(player).model() == old(player).model()
        },
        old(inventory)@[index as int]@.name == "Energy Potion"@
            && old(player).model().resource < old(player).model().max_resource ==> {
            &&& r is ResourceRestored
            &&& final(inventory)@ == old(inventory)@.remove(index as int)
            &&& final(player).model() == restored(old(player).model(), RESOURCE_RESTORE)
        },
        old(inventory)@[index as int]@.name == "Energy Potion"@
            && old(player).model().resource >= old(player).model().max_resource ==> {
            &&& r is ResourceFull
            &&& final(inventory)@ == old(inventory)@
            &&& final(player).model() == old(player).model()
        },
        old(inventory)@[index as int]@.name != "Health Potion"@
            && old(inventory)@[index as int]@.name != "Energy Potion"@ ==> {
            &&& r is NotUsable
            &&& final(inventory)@ == old(inventory)@
            &&& final(player).model() == old(player).model()
        },
{
    proof {
        reveal_strlit("Health Potion");
        reveal_strlit("Energy Potion");
        assert("Health Potion"@[0] == 'H');
        assert("Energy Potion"@[0] == 'E');
        assert("Health Potion"@ != "Energy Potion"@);
    }
    if inventory[index].is_health_potion() {
        if player.get_health() >= player.get_max_health() {
            return MenuItemUse::HealthFull;
        }
    }
    if inventory[index].is_energy_potion() {
        if player.get_resource() >= player.get_max_resource() {
            return MenuItemUse::ResourceFull;
        }
    }
    match use_item_at(player, inventory, index) {
        ItemUse::HealthRestored => MenuItemUse::HealthRestored,
        ItemUse::ResourceRestored => MenuItemUse::ResourceRestored,
        ItemUse::NotUsable => MenuItemUse::NotUsable,
    }
}

} // verus!
