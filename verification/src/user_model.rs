//! The combat-relevant part of a persisted character record: resources,
//! attributes, gold, experience with level-ups, and the bestiary. The
//! persistence layer stores and loads these fields; this module owns every
//! rule that changes them.

use vstd::prelude::*;

use crate::anomalies::AnomalyDrops;
use crate::anomalies::AnomalyType;
use crate::common::clip;
use crate::classes::ClassType;
use crate::common::add_max_value_spec;
use crate::common::Stat;
use crate::math::MAX_ATTRIBUTE;
use crate::rng::random_below;

verus! {

/// One line of the bestiary: an archetype and the record against it.
#[derive(Debug, Clone, Copy, PartialEq, Eq, Structural)]
pub struct BestiaryEntry {
    pub anomaly: AnomalyType,
    pub wins: i32,
    pub loses: i32,
}

/// A character's combat-relevant persisted state.
#[derive(Debug, Clone)]
pub struct UserData {
    pub user_id: String,
    pub class: ClassType,
    pub gold: i32,
    pub health: Stat,
    pub mana: Stat,
    pub bestiary: Vec<BestiaryEntry>,
    pub strength: i32,
    pub agility: i32,
    pub intelligence: i32,
    pub xp: i32,
    pub level: i32,
}

/// An attribute raised by one level-up point.
#[derive(Debug, Clone, Copy, PartialEq, Eq, Structural)]
pub enum UpgradeKind {
    MaxHealth,
    MaxMana,
    Strength,
    Intelligence,
    Agility,
}

impl Default for UserData {
    /// The default starting kit: a level-1 knight with 10 gold, 100 health
    /// and 20 mana.
    fn default() -> (r: Self)
        ensures
            r.user_id@ == Seq::<char>::empty(),
            r.class == ClassType::Knight,
            r.gold == 10,
            r.health == (Stat { max: 100, value: 100 }),
            r.mana == (Stat { max: 20, value: 20 }),
            r.bestiary@ == Seq::<BestiaryEntry>::empty(),
            r.strength == 20,
            r.agility == 5,
            r.intelligence == 5,
            r.xp == 0,
            r.level == 1,
            r.wf(),
    {
        Self::new(String::new(), ClassType::Knight)
    }
}

/// An attribute raised by `amount`, saturating at the attribute cap.
pub open spec fn saturating_attribute_add(x: int, amount: int) -> int {
    if x + amount > MAX_ATTRIBUTE {
        MAX_ATTRIBUTE as int
    } else {
        x + amount
    }
}

/// The record after one upgrade: the chosen attribute grows by `amount`,
/// saturating at its cap (a resource cap that cannot grow any further is
/// left unchanged).
pub open spec fn apply_upgrade_spec(u: UserData, kind: UpgradeKind, amount: int) -> UserData {
    match kind {
        UpgradeKind::MaxHealth => if u.health.max + amount <= i32::MAX {
            UserData { health: add_max_value_spec(u.health, amount), ..u }
        } else {
            u
        },
        UpgradeKind::MaxMana => if u.mana.max + amount <= i32::MAX {
            UserData { mana: add_max_value_spec(u.mana, amount), ..u }
        } else {
            u
        },
        UpgradeKind::Strength => UserData {
            strength: saturating_attribute_add(u.strength as int, amount) as i32,
            ..u
        },
        UpgradeKind::Intelligence => UserData {
            intelligence: saturating_attribute_add(u.intelligence as int, amount) as i32,
            ..u
        },
        UpgradeKind::Agility => UserData {
            agility: saturating_attribute_add(u.agility as int, amount) as i32,
            ..u
        },
    }
}

/// Drains experience into levels: while the stored experience covers the
/// threshold `150 * level`, it is paid and the level rises. Returns the
/// final `(xp, level)` pair.
pub open spec fn drain_xp_spec(xp: int, level: int) -> (int, int)
    decreases xp,
{
    if level < 1 || xp < 150 * level {
        (xp, level)
    } else {
        drain_xp_spec(xp - 150 * level, level + 1)
    }
}

/// The position of the first bestiary line about `anomaly`, or -1 when
/// there is none.
pub open spec fn bestiary_index_of(s: Seq<BestiaryEntry>, anomaly: AnomalyType) -> int
    decreases s.len(),
{
    if s.len() == 0 {
        -1
    } else if s[0].anomaly == anomaly {
        0
    } else {
        let sub = bestiary_index_of(s.subrange(1, s.len() as int), anomaly);
        if sub < 0 {
            -1
        } else {
            1 + sub
        }
    }
}

/// A line-by-line search that stops at the first match agrees with
/// `bestiary_index_of`.
proof fn lemma_bestiary_index_of_first(s: Seq<BestiaryEntry>, anomaly: AnomalyType, i: int)
    requires
        0 <= i < s.len(),
        s[i].anomaly == anomaly,
        forall|j: int| 0 <= j < i ==> (#[trigger] s[j]).anomaly != anomaly,
    ensures
        bestiary_index_of(s, anomaly) == i,
    decreases i,
{
    if i > 0 {
        let sub = s.subrange(1, s.len() as int);
        assert(forall|j: int| 0 <= j < i - 1 ==> #[trigger] sub[j] == s[j + 1]);
        lemma_bestiary_index_of_first(sub, anomaly, i - 1);
    }
}

/// The bestiary after noting a battle against `anomaly`: the first line
/// about it gains a win or a loss, or a fresh line is appended.
pub open spec fn bestiary_after(
    s: Seq<BestiaryEntry>,
    anomaly: AnomalyType,
    won: bool,
) -> Seq<BestiaryEntry> {
    let idx = bestiary_index_of(s, anomaly);
    if idx < 0 {
        s.push(
            BestiaryEntry {
                anomaly,
                wins: if won {
                    1int
                } else {
                    0int
                } as i32,
                loses: if won {
                    0int
                } else {
                    1int
                } as i32,
            },
        )
    } else {
        s.update(
            idx,
            BestiaryEntry {
                anomaly,
                wins: if won {
                    (s[idx].wins + 1) as i32
                } else {
                    s[idx].wins
                },
                loses: if won {
                    s[idx].loses
                } else {
                    (s[idx].loses + 1) as i32
                },
            },
        )
    }
}

/// When no line matches, `bestiary_index_of` finds nothing.
proof fn lemma_bestiary_index_of_none(s: Seq<BestiaryEntry>, anomaly: AnomalyType)
    requires
        forall|j: int| 0 <= j < s.len() ==> (#[trigger] s[j]).anomaly != anomaly,
    ensures
        bestiary_index_of(s, anomaly) == -1,
    decreases s.len(),
{
    if s.len() > 0 {
        let sub = s.subrange(1, s.len() as int);
        assert(forall|j: int| 0 <= j < sub.len() ==> #[trigger] sub[j] == s[j + 1]);
        lemma_bestiary_index_of_none(sub, anomaly);
    }
}

impl UserData {
    /// The record's invariant: resource pools well formed, attributes within
    /// the cap, gold and experience non-negative, level at least 1.
    pub open spec fn wf(self) -> bool {
        &&& self.health.wf()
        &&& self.mana.wf()
        &&& 0 <= self.strength <= MAX_ATTRIBUTE
        &&& 0 <= self.agility <= MAX_ATTRIBUTE
        &&& 0 <= self.intelligence <= MAX_ATTRIBUTE
        &&& 0 <= self.gold
        &&& 0 <= self.xp
        &&& 1 <= self.level
    }

    /// A fresh level-1 character with the default starting kit.
    pub fn new(user_id: String, class: ClassType) -> (r: Self)
        ensures
            r.user_id@ == user_id@,
            r.class == class,
            r.gold == 10,
            r.health == (Stat { max: 100, value: 100 }),
            r.mana == (Stat { max: 20, value: 20 }),
            r.bestiary@ == Seq::<BestiaryEntry>::empty(),
            r.strength == 20,
            r.agility == 5,
            r.intelligence == 5,
            r.xp == 0,
            r.level == 1,
            r.wf(),
    {
        Self {
            user_id,
            class,
            gold: 10,
            health: Stat::new(100),
            mana: Stat::new(20),
            bestiary: Vec::new(),
            strength: 20,
            agility: 5,
            intelligence: 5,
            xp: 0,
            level: 1,
        }
    }

    /// Adds earned experience.
    pub fn add_xp(&mut self, amount: i32)
        requires
            old(self).wf(),
            0 <= amount,
            old(self).xp + amount <= i32::MAX,
        ensures
            *final(self) == (UserData { xp: (old(self).xp + amount) as i32, ..*old(self) }),
            final(self).wf(),
    {
        self.xp = self.xp + amount;
    }

    /// Spends one upgrade point's worth of `amount` on the chosen attribute,
    /// saturating at the attribute cap.
    pub fn apply_upgrade(&mut self, kind: UpgradeKind, amount: i32)
        requires
            old(self).wf(),
            0 <= amount,
        ensures
            *final(self) == apply_upgrade_spec(*old(self), kind, amount as int),
            final(self).wf(),
            final(self).strength >= old(self).strength,
            final(self).agility >= old(self).agility,
            final(self).intelligence >= old(self).intelligence,
            final(self).health.max >= old(self).health.max,
            final(self).mana.max >= old(self).mana.max,
            final(self).xp == old(self).xp,
            final(self).level == old(self).level,
            final(self).gold == old(self).gold,
            final(self).class == old(self).class,
            final(self).user_id == old(self).user_id,
            final(self).bestiary == old(self).bestiary,
    {
        match kind {
            UpgradeKind::MaxHealth => {
                if self.health.max as i64 + amount as i64 <= i32::MAX as i64 {
                    self.health.add_max_value(amount);
                }
            },
            UpgradeKind::MaxMana => {
                if self.mana.max as i64 + amount as i64 <= i32::MAX as i64 {
                    self.mana.add_max_value(amount);
                }
            },
            UpgradeKind::Strength => {
                if self.strength as i64 + amount as i64 > MAX_ATTRIBUTE as i64 {
                    self.strength = MAX_ATTRIBUTE;
                } else {
                    self.strength = self.strength + amount;
                }
            },
            UpgradeKind::Intelligence => {
                if self.intelligence as i64 + amount as i64 > MAX_ATTRIBUTE as i64 {
                    self.intelligence = MAX_ATTRIBUTE;
                } else {
                    self.intelligence = self.intelligence + amount;
                }
            },
            UpgradeKind::Agility => {
                if self.agility as i64 + amount as i64 > MAX_ATTRIBUTE as i64 {
                    self.agility = MAX_ATTRIBUTE;
                } else {
                    self.agility = self.agility + amount;
                }
            },
        }
    }

    /// Levels the character up as far as the stored experience reaches:
    /// returns `None` (and changes nothing) when the threshold `150 * level`
    /// is not met, else pays experience level by level, then spends 2 points
    /// plus a random draw per level gained on randomly chosen attribute
    /// upgrades, and returns the new level. The final experience and level
    /// are exactly what `drain_xp_spec` computes; every attribute can only
    /// grow.
    pub fn level_up(&mut self) -> (r: Option<i32>)
        requires
            old(self).wf(),
        ensures
            final(self).wf(),
            (r is None) <==> (old(self).xp < 150 * old(self).level),
            r is None ==> *final(self) == *old(self),
            r matches Some(l) ==> {
                let drained = drain_xp_spec(old(self).xp as int, old(self).level as int);
                &&& l == final(self).level
                &&& final(self).xp == drained.0
                &&& final(self).level == drained.1
                &&& final(self).level > old(self).level
                &&& final(self).gold == old(self).gold
                &&& final(self).class == old(self).class
                &&& final(self).user_id == old(self).user_id
                &&& final(self).bestiary == old(self).bestiary
                &&& final(self).strength >= old(self).strength
                &&& final(self).agility >= old(self).agility
                &&& final(self).intelligence >= old(self).intelligence
                &&& final(self).health.max >= old(self).health.max
                &&& final(self).mana.max >= old(self).mana.max
            },
    {
        if (self.xp as i64) < 150 * self.level as i64 {
            return None;
        }

        let lower: i32 = if self.level / 3 > 1 {
            self.level / 3
        } else {
            1
        };
        let upper: i32 = if self.level / 2 > 2 {
            self.level / 2
        } else {
            2
        };
        let mut points: i64 = 2;

        while (self.xp as i64) >= 150 * self.level as i64
            invariant
                self.wf(),
                *self == (UserData {
                    xp: self.xp,
                    level: self.level,
                    ..*old(self)
                }),
                self.level >= old(self).level,
                self.level == old(self).level ==> self.xp == old(self).xp,
                drain_xp_spec(self.xp as int, self.level as int) == drain_xp_spec(
                    old(self).xp as int,
                    old(self).level as int,
                ),
                1 <= lower <= upper,
                upper <= 150 * old(self).level,
                2 <= points <= 2 + old(self).xp - self.xp,
            decreases self.xp,
        {
            let threshold: i32 = (150 * self.level as i64) as i32;
            self.xp = self.xp - threshold;
            self.level = self.level + 1;
            let draw: i32 = lower + random_below((upper - lower + 1) as u32) as i32;
            points = points + draw as i64;
        }

        let ghost drained = drain_xp_spec(old(self).xp as int, old(self).level as int);
        proof {
            assert(drain_xp_spec(self.xp as int, self.level as int) == (
                self.xp as int,
                self.level as int,
            ));
        }
        let new_level = self.level;
        let ghost mid = *self;

        let mut remaining: i64 = points;
        while remaining > 0
            invariant
                self.wf(),
                remaining >= 0,
                self.xp == mid.xp,
                self.level == mid.level,
                self.gold == mid.gold,
                self.class == mid.class,
                self.user_id == mid.user_id,
                self.bestiary == mid.bestiary,
                self.strength >= mid.strength,
                self.agility >= mid.agility,
                self.intelligence >= mid.intelligence,
                self.health.max >= mid.health.max,
                self.mana.max >= mid.mana.max,
            decreases remaining,
        {
            let kind = match random_below(5) {
                0 => UpgradeKind::MaxHealth,
                1 => UpgradeKind::MaxMana,
                2 => UpgradeKind::Strength,
                3 => UpgradeKind::Intelligence,
                _ => UpgradeKind::Agility,
            };
            self.apply_upgrade(kind, 1);
            remaining = remaining - 1;
        }

        Some(new_level)
    }

    /// Whether the character is worn enough to rest: at or below 80% of the
    /// health pool.
    pub fn can_rest(&self) -> (r: bool)
        requires
            self.wf(),
        ensures
            r == (self.health.value * 5 <= self.health.max * 4),
    {
        self.health.value as i64 * 5 <= self.health.max as i64 * 4
    }

    /// Books one resolved battle into the record, as the adventure flow
    /// does: on a win the rewards are added and levels drained from the new
    /// experience; either way the fighter's final health and mana are
    /// written back (clamped to the pools, whose caps the level-up may have
    /// grown) and the bestiary notes the outcome. Returns the new level
    /// when the character leveled up.
    pub fn apply_battle_rewards(
        &mut self,
        rewards: AnomalyDrops,
        won: bool,
        final_health: i32,
        final_mana: i32,
        anomaly: AnomalyType,
    ) -> (r: Option<i32>)
        requires
            old(self).wf(),
            rewards.xp >= 0,
            rewards.gold >= 0,
            old(self).xp + rewards.xp <= i32::MAX,
            old(self).gold + rewards.gold <= i32::MAX,
            forall|j: int|
                0 <= j < old(self).bestiary@.len() ==> (#[trigger] old(self).bestiary@[j]).wins
                    < i32::MAX && old(self).bestiary@[j].loses < i32::MAX,
        ensures
            final(self).wf(),
            final(self).user_id == old(self).user_id,
            final(self).class == old(self).class,
            final(self).bestiary@ == bestiary_after(old(self).bestiary@, anomaly, won),
            final(self).health.value == clip(0, final_health as int, final(self).health.max as int),
            final(self).mana.value == clip(0, final_mana as int, final(self).mana.max as int),
            final(self).health.max >= old(self).health.max,
            final(self).mana.max >= old(self).mana.max,
            final(self).strength >= old(self).strength,
            final(self).agility >= old(self).agility,
            final(self).intelligence >= old(self).intelligence,
            !won ==> final(self).gold == old(self).gold && final(self).level == old(self).level
                && final(self).xp == old(self).xp && r is None,
            won ==> final(self).gold == old(self).gold + rewards.gold,
            won ==> {
                let drained = drain_xp_spec(old(self).xp + rewards.xp, old(self).level as int);
                &&& final(self).xp == drained.0
                &&& final(self).level == drained.1
                &&& (r is None <==> old(self).xp + rewards.xp < 150 * old(self).level)
                &&& (r matches Some(l) ==> l == final(self).level)
            },
    {
        let mut leveled: Option<i32> = None;
        if won {
            self.add_gold(rewards.gold);
            self.add_xp(rewards.xp);
            leveled = self.level_up();
        }
        self.set_health(final_health);
        self.set_mana(final_mana);
        self.try_add_to_bestiary(anomaly, won);
        leveled
    }

    /// Notes a battle against `anomaly` in the bestiary: the first existing
    /// line about it gains a win or a loss, or a fresh line is appended.
    pub fn try_add_to_bestiary(&mut self, anomaly: AnomalyType, won: bool)
        requires
            old(self).wf(),
            forall|j: int|
                0 <= j < old(self).bestiary@.len() ==> (#[trigger] old(self).bestiary@[j]).wins
                    < i32::MAX && old(self).bestiary@[j].loses < i32::MAX,
        ensures
            *final(self) == (UserData { bestiary: final(self).bestiary, ..*old(self) }),
            final(self).wf(),
            final(self).bestiary@ == bestiary_after(old(self).bestiary@, anomaly, won),
    {
        let mut i: usize = 0;
        while i < self.bestiary.len()
            invariant
                *self == *old(self),
                self.wf(),
                i <= self.bestiary.len(),
                forall|j: int|
                    0 <= j < self.bestiary@.len() ==> (#[trigger] self.bestiary@[j]).wins
                        < i32::MAX && self.bestiary@[j].loses < i32::MAX,
                forall|j: int| 0 <= j < i ==> (#[trigger] self.bestiary@[j]).anomaly != anomaly,
            decreases self.bestiary.len() - i,
        {
            if self.bestiary[i].anomaly == anomaly {
                proof {
                    lemma_bestiary_index_of_first(self.bestiary@, anomaly, i as int);
                }
                let mut entry = self.bestiary[i];
                if won {
                    entry.wins = entry.wins + 1;
                } else {
                    entry.loses = entry.loses + 1;
                }
                self.bestiary.set(i, entry);
                return ;
            }
            i = i + 1;
        }
        proof {
            lemma_bestiary_index_of_none(self.bestiary@, anomaly);
        }
        self.bestiary.push(
            BestiaryEntry {
                anomaly,
                wins: if won {
                    1
                } else {
                    0
                },
                loses: if won {
                    0
                } else {
                    1
                },
            },
        );
    }

    /// Adds earned gold.
    pub fn add_gold(&mut self, amount: i32)
        requires
            old(self).wf(),
            0 <= amount,
            old(self).gold + amount <= i32::MAX,
        ensures
            *final(self) == (UserData { gold: (old(self).gold + amount) as i32, ..*old(self) }),
            final(self).wf(),
    {
        self.gold = self.gold + amount;
    }

    /// Removes gold, floored at 0.
    pub fn remove_gold(&mut self, amount: i32)
        requires
            old(self).wf(),
            0 <= amount,
        ensures
            *final(self) == (UserData {
                gold: (if old(self).gold - amount < 0 {
                    0int
                } else {
                    old(self).gold - amount
                }) as i32,
                ..*old(self)
            }),
            final(self).wf(),
    {
        if amount > self.gold {
            self.gold = 0;
        } else {
            self.gold = self.gold - amount;
        }
    }

    /// Refills health to its cap.
    pub fn restore_health(&mut self)
        requires
            old(self).wf(),
        ensures
            *final(self) == (UserData {
                health: Stat { max: old(self).health.max, value: old(self).health.max },
                ..*old(self)
            }),
            final(self).wf(),
    {
        self.health.restore_value();
    }

    /// Adds health, clamped to the pool.
    pub fn add_health(&mut self, amount: i32)
        requires
            old(self).wf(),
        ensures
            *final(self) == (UserData {
                health: crate::common::add_value_spec(old(self).health, amount as int),
                ..*old(self)
            }),
            final(self).wf(),
    {
        self.health.add_value(amount);
    }

    /// Sets health, clamped to the pool.
    pub fn set_health(&mut self, amount: i32)
        requires
            old(self).wf(),
        ensures
            *final(self) == (UserData {
                health: crate::common::set_value_spec(old(self).health, amount as int),
                ..*old(self)
            }),
            final(self).wf(),
    {
        self.health.set_value(amount);
    }

    /// Removes health, floored at 0.
    pub fn remove_health(&mut self, amount: i32)
        requires
            old(self).wf(),
        ensures
            *final(self) == (UserData {
                health: crate::common::subtract_value_spec(old(self).health, amount as int),
                ..*old(self)
            }),
            final(self).wf(),
    {
        self.health.subtract_value(amount);
    }

    /// Refills mana to its cap.
    pub fn restore_mana(&mut self)
        requires
            old(self).wf(),
        ensures
            *final(self) == (UserData {
                mana: Stat { max: old(self).mana.max, value: old(self).mana.max },
                ..*old(self)
            }),
            final(self).wf(),
    {
        self.mana.restore_value();
    }

    /// Adds mana, clamped to the pool.
    pub fn add_mana(&mut self, amount: i32)
        requires
            old(self).wf(),
        ensures
            *final(self) == (UserData {
                mana: crate::common::add_value_spec(old(self).mana, amount as int),
                ..*old(self)
            }),
            final(self).wf(),
    {
        self.mana.add_value(amount);
    }

    /// Sets mana, clamped to the pool.
    pub fn set_mana(&mut self, amount: i32)
        requires
            old(self).wf(),
        ensures
            *final(self) == (UserData {
                mana: crate::common::set_value_spec(old(self).mana, amount as int),
                ..*old(self)
            }),
            final(self).wf(),
    {
        self.mana.set_value(amount);
    }

    /// Removes mana, floored at 0.
    pub fn remove_mana(&mut self, amount: i32)
        requires
            old(self).wf(),
        ensures
            *final(self) == (UserData {
                mana: crate::common::subtract_value_spec(old(self).mana, amount as int),
                ..*old(self)
            }),
            final(self).wf(),
    {
        self.mana.subtract_value(amount);
    }

    /// Grows the health pool.
    pub fn add_max_health(&mut self, amount: i32)
        requires
            old(self).wf(),
            0 <= old(self).health.max + amount <= i32::MAX,
        ensures
            *final(self) == (UserData {
                health: add_max_value_spec(old(self).health, amount as int),
                ..*old(self)
            }),
            final(self).wf(),
    {
        self.health.add_max_value(amount);
    }

    /// Grows the mana pool.
    pub fn add_max_mana(&mut self, amount: i32)
        requires
            old(self).wf(),
            0 <= old(self).mana.max + amount <= i32::MAX,
        ensures
            *final(self) == (UserData {
                mana: add_max_value_spec(old(self).mana, amount as int),
                ..*old(self)
            }),
            final(self).wf(),
    {
        self.mana.add_max_value(amount);
    }

    /// Raises strength, saturating at the attribute cap.
    pub fn add_strength(&mut self, amount: i32)
        requires
            old(self).wf(),
            0 <= amount,
        ensures
            *final(self) == apply_upgrade_spec(*old(self), UpgradeKind::Strength, amount as int),
            final(self).wf(),
    {
        self.apply_upgrade(UpgradeKind::Strength, amount);
    }

    /// Raises intelligence, saturating at the attribute cap.
    pub fn add_intelligence(&mut self, amount: i32)
        requires
            old(self).wf(),
            0 <= amount,
        ensures
            *final(self) == apply_upgrade_spec(
                *old(self),
                UpgradeKind::Intelligence,
                amount as int,
            ),
            final(self).wf(),
    {
        self.apply_upgrade(UpgradeKind::Intelligence, amount);
    }

    /// Raises agility, saturating at the attribute cap.
    pub fn add_agility(&mut self, amount: i32)
        requires
            old(self).wf(),
            0 <= amount,
        ensures
            *final(self) == apply_upgrade_spec(*old(self), UpgradeKind::Agility, amount as int),
            final(self).wf(),
    {
        self.apply_upgrade(UpgradeKind::Agility, amount);
    }
}

} // verus!
