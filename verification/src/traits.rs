use vstd::prelude::*;

verus! {

/// Highest level a fighter can be built at; keeps every derived stat and every
/// damage computation inside `u32`.
pub const MAX_LEVEL: u32 = 1000000;

/// Upper bound on any fighter's base attack and special-ability damage; chosen
/// so that applying variance (at most 120%) and the critical-hit multiplier
/// (3/2) never overflows `u32`.
pub const ATTACK_CAP: u32 = 8000000;

/// The abstract state of a fighter: everything the combat rules read or write.
pub ghost struct FighterModel {
    pub name: Seq<char>,
    pub health: u32,
    pub max_health: u32,
    pub level: u32,
    pub resource: u32,
    pub max_resource: u32,
    pub resource_name: Seq<char>,
    /// Deterministic base melee damage, derived once from the level.
    pub base_attack: u32,
    pub special_cost: u32,
    pub special_damage: u32,
    pub special_name: Seq<char>,
    /// Whether the fighter has a usable special ability at all.
    pub has_special: bool,
    /// A degenerate pool that ignores mutation (an effectively unlimited
    /// reserve that is never spent).
    pub fixed_pool: bool,
}

/// Bounds that hold of every well-formed fighter, whatever its variant.
pub open spec fn model_wf(m: FighterModel) -> bool {
    &&& m.health <= m.max_health
    &&& m.resource <= m.max_resource
    &&& 2 <= m.base_attack <= ATTACK_CAP
    &&& m.special_damage <= ATTACK_CAP
    &&& (m.has_special ==> 2 <= m.special_damage)
    &&& 1 <= m.level
}

/// The fighter after a hit: health drops by `damage`, saturating at zero.
pub open spec fn damaged(m: FighterModel, damage: u32) -> FighterModel {
    FighterModel {
        health: if damage > m.health {
            0u32
        } else {
            (m.health - damage) as u32
        },
        ..m
    }
}

/// The fighter after healing: health rises by `amount`, capped at the maximum.
pub open spec fn healed(m: FighterModel, amount: u32) -> FighterModel {
    FighterModel {
        health: if m.health + amount > m.max_health {
            m.max_health
        } else {
            (m.health + amount) as u32
        },
        ..m
    }
}

/// The fighter after a resource restore: the pool rises by `amount`, capped
/// at its maximum, except that a fixed pool ignores mutation.
pub open spec fn restored(m: FighterModel, amount: u32) -> FighterModel {
    FighterModel {
        resource: pool_set(
            m,
            if m.resource + amount > m.max_resource {
                m.max_resource
            } else {
                (m.resource + amount) as u32
            },
        ),
        ..m
    }
}

/// What `set_resource` leaves in the pool: clamped to the cap, except that a
/// fixed pool ignores mutation entirely.
pub open spec fn pool_set(m: FighterModel, amount: u32) -> u32 {
    if m.fixed_pool {
        m.resource
    } else if amount > m.max_resource {
        m.max_resource
    } else {
        amount
    }
}

/// What a successful spend of `cost` leaves in the pool.
pub open spec fn pool_spent(m: FighterModel, cost: u32) -> u32 {
    if m.fixed_pool {
        m.resource
    } else {
        (m.resource - cost) as u32
    }
}

/// Whether the special ability can fire: the fighter has one and can pay for it.
pub open spec fn can_special(m: FighterModel) -> bool {
    m.has_special && m.resource >= m.special_cost
}

/// Per-fighter numeric state: health, level, identity. The invariant
/// `health <= max_health` holds at all times; `take_damage` and `heal` are the
/// sanctioned mutators and saturate rather than overflow.
pub trait Character: Sized {
    /// The abstract state this concrete fighter stands for.
    spec fn model(&self) -> FighterModel;

    /// The representation invariant: established by the constructor and
    /// preserved by every method.
    spec fn inv(&self) -> bool;

    /// A well-formed fighter's model satisfies the shared bounds.
    proof fn lemma_inv(&self)
        requires
            self.inv(),
        ensures
            model_wf(self.model()),
    ;

    fn get_name(&self) -> (r: &str)
        ensures
            r@ == self.model().name,
    ;

    fn get_health(&self) -> (h: u32)
        ensures
            h == self.model().health,
    ;

    fn get_max_health(&self) -> (h: u32)
        ensures
            h == self.model().max_health,
    ;

    fn get_level(&self) -> (l: u32)
        ensures
            l == self.model().level,
    ;

    /// Raw write; performs no clamp, so the caller must stay under the cap.
    fn set_health(&mut self, health: u32)
        requires
            old(self).inv(),
            health <= old(self).model().max_health,
        ensures
            final(self).inv(),
            final(self).model() == (FighterModel { health, ..old(self).model() }),
    ;

    /// Health drops by `damage`, saturating at zero; nothing else changes.
    fn take_damage(&mut self, damage: u32)
        requires
            old(self).inv(),
        ensures
            final(self).inv(),
            final(self).model() == damaged(old(self).model(), damage),
    {
        let h = self.get_health();
        proof {
            self.lemma_inv();
        }
        if damage > h {
            self.set_health(0);
        } else {
            self.set_health(h - damage);
        }
    }

    /// Health rises by `amount`, capped at `max_health`; nothing else changes.
    fn heal(&mut self, amount: u32)
        requires
            old(self).inv(),
        ensures
            final(self).inv(),
            final(self).model() == healed(old(self).model(), amount),
    {
        let h = self.get_health();
        let max = self.get_max_health();
        proof {
            self.lemma_inv();
        }
        if amount > max - h {
            self.set_health(max);
        } else {
            self.set_health(h + amount);
        }
    }

    fn is_alive(&self) -> (r: bool)
        ensures
            r == (self.model().health > 0),
    {
        self.get_health() > 0
    }
}

/// A capped, named pool spent to activate special abilities. `set_resource`
/// clamps to the cap; `consume_resource` is the sole gate for paid abilities.
pub trait ResourcePool: Character {
    fn get_resource(&self) -> (r: u32)
        ensures
            r == self.model().resource,
    ;

    fn get_max_resource(&self) -> (r: u32)
        ensures
            r == self.model().max_resource,
    ;

    fn get_resource_name(&self) -> (r: &str)
        ensures
            r@ == self.model().resource_name,
    ;

    /// Clamped write; a fixed pool ignores it.
    fn set_resource(&mut self, amount: u32)
        requires
            old(self).inv(),
        ensures
            final(self).inv(),
            final(self).model() == (FighterModel {
                resource: pool_set(old(self).model(), amount),
                ..old(self).model()
            }),
    ;

    fn has_resource(&self, cost: u32) -> (r: bool)
        ensures
            r == (self.model().resource >= cost),
    {
        self.get_resource() >= cost
    }

    /// Spends `cost` and returns `true` when the pool suffices; otherwise
    /// leaves the state unchanged and returns `false`.
    fn consume_resource(&mut self, cost: u32) -> (r: bool)
        requires
            old(self).inv(),
        ensures
            final(self).inv(),
            r == (old(self).model().resource >= cost),
            r ==> final(self).model() == (FighterModel {
                resource: pool_spent(old(self).model(), cost),
                ..old(self).model()
            }),
            !r ==> final(self).model() == old(self).model(),
    {
        if self.has_resource(cost) {
            proof {
                self.lemma_inv();
            }
            let r = self.get_resource();
            self.set_resource(r - cost);
            true
        } else {
            false
        }
    }
}

/// Per-variant attack and special-ability behaviour. Base attacks are
/// deterministic here; variance and critical hits are applied by the battle
/// resolver, never at this layer.
pub trait Combat: ResourcePool {
    /// Deterministic base melee damage derived from the variant's stats.
    fn attack(&self) -> (d: u32)
        requires
            self.inv(),
        ensures
            d == self.model().base_attack,
    ;

    /// Attempts to pay the cost; on success returns the damage value and
    /// spends the resource, on failure returns `None` and changes nothing.
    fn special_ability(&mut self) -> (r: Option<u32>)
        requires
            old(self).inv(),
        ensures
            final(self).inv(),
            can_special(old(self).model()) ==> {
                &&& r == Some(old(self).model().special_damage)
                &&& final(self).model() == (FighterModel {
                    resource: pool_spent(old(self).model(), old(self).model().special_cost),
                    ..old(self).model()
                })
            },
            !can_special(old(self).model()) ==> {
                &&& r is None
                &&& final(self).model() == old(self).model()
            },
    ;

    fn special_ability_cost(&self) -> (c: u32)
        ensures
            c == self.model().special_cost,
    ;

    fn special_ability_name(&self) -> (r: &str)
        ensures
            r@ == self.model().special_name,
    ;

    fn can_use_special(&self) -> (r: bool)
        ensures
            r == can_special(self.model()),
    ;
}

/// The full capability set the battle resolver operates on.
pub trait Fighter: Character + Combat + ResourcePool {

}

/// The state transition one `special_ability` call makes, as the `Combat`
/// contract states it: a successful attempt spends the cost, a failed one
/// changes nothing.
pub open spec fn special_transition(m: FighterModel) -> FighterModel {
    if can_special(m) {
        FighterModel { resource: pool_spent(m, m.special_cost), ..m }
    } else {
        m
    }
}

/// The state after `n` consecutive `special_ability` calls.
pub open spec fn special_attempts(m: FighterModel, n: nat) -> FighterModel
    decreases n,
{
    if n == 0 {
        m
    } else {
        special_transition(special_attempts(m, (n - 1) as nat))
    }
}

/// A failed special-ability attempt is idempotent: with an insufficient
/// resource, any number of consecutive attempts leaves the fighter exactly as
/// it was, and each of them still fails.
pub proof fn lemma_special_failure_idempotent(m: FighterModel, n: nat)
    requires
        !can_special(m),
    ensures
        special_attempts(m, n) == m,
        !can_special(special_attempts(m, n)),
    decreases n,
{
    if n > 0 {
        lemma_special_failure_idempotent(m, (n - 1) as nat);
    }
}

} // verus!
