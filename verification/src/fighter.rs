//! A combat participant: a snapshot of either a player's persisted record or
//! a generated anomaly, taken when the battle starts. Only the battle itself
//! mutates a fighter, and only its health and mana.

use vstd::prelude::*;

use crate::anomalies::Anomaly;
use crate::common::subtract_value_spec;
use crate::common::Probability;
use crate::common::Stat;
use crate::errors::GameError;
use crate::math;
use crate::math::MAX_ATTRIBUTE;
use crate::rng::random_below;
use crate::user_model::UserData;

verus! {

/// Smallest damage multiplier, in hundredths.
pub const DAMAGE_MULTIPLIER_MIN_PCT: u32 = 80;

/// Largest damage multiplier, in hundredths.
pub const DAMAGE_MULTIPLIER_MAX_PCT: u32 = 120;

/// Smallest critical bonus added to the multiplier, in hundredths.
pub const CRITICAL_BONUS_MIN_PCT: u32 = 75;

/// Largest critical bonus added to the multiplier, in hundredths.
pub const CRITICAL_BONUS_MAX_PCT: u32 = 119;

/// The picture shown for a player fighter when no avatar is known; the
/// interaction layer substitutes the player's own picture.
pub const FALLBACK_FIGHTER_IMAGE: &'static str = "https://i.imgur.com/Kl2qRLF.png";

/// A battle participant. `user` carries the controlling player's id;
/// `anomaly` the generated monster it was built from; exactly one of the
/// two is set by the constructors. `target_index` points into the battle's
/// fighter list once the battle assigns the ring.
#[derive(Debug)]
pub struct Fighter {
    pub name: String,
    pub user: Option<u64>,
    pub anomaly: Option<Anomaly>,
    pub target_index: Option<usize>,
    pub health: Stat,
    pub mana: Stat,
    pub strength: i32,
    pub agility: i32,
    pub intelligence: i32,
}

impl Clone for Fighter {
    /// A fighter copies exactly.
    fn clone(&self) -> (r: Self)
        ensures
            r == *self,
    {
        Fighter {
            name: self.name.clone(),
            user: self.user,
            anomaly: self.anomaly,
            target_index: self.target_index,
            health: self.health,
            mana: self.mana,
            strength: self.strength,
            agility: self.agility,
            intelligence: self.intelligence,
        }
    }
}

impl Fighter {
    /// Well-formed pools and attributes within the cap.
    pub open spec fn wf(self) -> bool {
        &&& self.health.wf()
        &&& self.mana.wf()
        &&& 0 <= self.strength <= MAX_ATTRIBUTE
        &&& 0 <= self.agility <= MAX_ATTRIBUTE
        &&& 0 <= self.intelligence <= MAX_ATTRIBUTE
    }

    /// Snapshots a player's record into a fighter the player controls.
    pub fn create_from_user_data(user_id: u64, name: String, user: &UserData) -> (r: Result<
        Self,
        GameError,
    >)
        requires
            user.wf(),
        ensures
            r matches Ok(f) && f == (Fighter {
                name: f.name,
                user: Some(user_id),
                anomaly: None,
                target_index: None,
                health: user.health,
                mana: user.mana,
                strength: user.strength,
                agility: user.agility,
                intelligence: user.intelligence,
            }),
            r matches Ok(f) ==> f.name@ == name@ && f.wf(),
    {
        Ok(
            Self {
                name,
                user: Some(user_id),
                anomaly: None,
                target_index: None,
                health: user.health,
                mana: user.mana,
                strength: user.strength,
                agility: user.agility,
                intelligence: user.intelligence,
            },
        )
    }

    /// Snapshots a generated anomaly into a fighter the game controls.
    pub fn create_from_anomaly(anomaly: Anomaly) -> (r: Result<Self, GameError>)
        requires
            anomaly.health.wf(),
            anomaly.mana.wf(),
            0 <= anomaly.strength <= MAX_ATTRIBUTE,
            0 <= anomaly.agility <= MAX_ATTRIBUTE,
            0 <= anomaly.intelligence <= MAX_ATTRIBUTE,
        ensures
            r matches Ok(f) && f == (Fighter {
                name: f.name,
                user: None,
                anomaly: Some(anomaly),
                target_index: None,
                health: anomaly.health,
                mana: anomaly.mana,
                strength: anomaly.strength,
                agility: anomaly.agility,
                intelligence: anomaly.intelligence,
            }),
            r matches Ok(f) ==> f.name@ == anomaly.anomaly_type.spec_name() && f.wf(),
    {
        let name = anomaly.name().to_owned();
        Ok(
            Self {
                name,
                user: None,
                anomaly: Some(anomaly),
                target_index: None,
                health: anomaly.health,
                mana: anomaly.mana,
                strength: anomaly.strength,
                agility: anomaly.agility,
                intelligence: anomaly.intelligence,
            },
        )
    }

    /// The damage one attack with the given multiplier draws deals: the
    /// strength scaled by the multiplier, with the critical bonus added to
    /// the multiplier on a critical hit.
    pub fn calculate_damage_with(&self, critical: bool, multiplier_pct: u32, crit_bonus_pct: u32)
        -> (r: i32)
        requires
            self.wf(),
            DAMAGE_MULTIPLIER_MIN_PCT <= multiplier_pct <= DAMAGE_MULTIPLIER_MAX_PCT,
            CRITICAL_BONUS_MIN_PCT <= crit_bonus_pct <= CRITICAL_BONUS_MAX_PCT,
        ensures
            r == math::damage_spec(
                self.strength as int,
                multiplier_pct as int + if critical {
                    crit_bonus_pct as int
                } else {
                    0int
                },
            ),
            0 <= r,
    {
        let total_pct: u32 = if critical {
            multiplier_pct + crit_bonus_pct
        } else {
            multiplier_pct
        };
        math::damage_from(self.strength, total_pct)
    }

    /// The damage one attack deals, with the multiplier (and on a critical
    /// hit the bonus) drawn uniformly from their documented ranges.
    pub fn calculate_damage(&self, critical: bool) -> (r: i32)
        requires
            self.wf(),
        ensures
            exists|total_pct: int|
                {
                    &&& DAMAGE_MULTIPLIER_MIN_PCT + if critical {
                        CRITICAL_BONUS_MIN_PCT as int
                    } else {
                        0int
                    } <= total_pct <= DAMAGE_MULTIPLIER_MAX_PCT + if critical {
                        CRITICAL_BONUS_MAX_PCT as int
                    } else {
                        0int
                    }
                    &&& r == #[trigger] math::damage_spec(self.strength as int, total_pct)
                },
            0 <= r,
    {
        let multiplier_pct = DAMAGE_MULTIPLIER_MIN_PCT + random_below(
            DAMAGE_MULTIPLIER_MAX_PCT - DAMAGE_MULTIPLIER_MIN_PCT + 1,
        );
        let crit_bonus_pct = CRITICAL_BONUS_MIN_PCT + random_below(
            CRITICAL_BONUS_MAX_PCT - CRITICAL_BONUS_MIN_PCT + 1,
        );
        self.calculate_damage_with(critical, multiplier_pct, crit_bonus_pct)
    }

    /// The chance that this fighter dodges an attack from `other`.
    pub fn calculate_dodge_chance(&self, other: &Fighter) -> (r: Probability)
        ensures
            r.spec_value() == math::dodge_chance_spec(self.agility as int, other.agility as int),
            r.wf(),
    {
        let chance = math::calculate_dodge_chance(self.agility, other.agility);
        Probability::new(chance as u8)
    }

    /// The chance that this fighter lands a critical hit on `other`.
    pub fn calculate_critical_chance(&self, other: &Fighter) -> (r: Probability)
        ensures
            r.spec_value() == math::critical_chance_spec(
                self.intelligence as int,
                other.intelligence as int,
            ),
            r.wf(),
    {
        let chance = math::calculate_critical_chance(self.intelligence, other.intelligence);
        Probability::new(chance as u8)
    }

    /// Takes damage: health drops by `damage`, floored at 0.
    pub fn take_damage(&mut self, damage: i32)
        requires
            old(self).wf(),
        ensures
            *final(self) == (Fighter {
                health: subtract_value_spec(old(self).health, damage as int),
                ..*old(self)
            }),
            final(self).wf(),
    {
        self.health.subtract_value(damage);
    }

    /// The picture to show for this fighter: the anomaly's own, or the
    /// fallback for a player (whose avatar the interaction layer knows).
    pub fn image(&self) -> (r: String)
        ensures
            r@ == match self.anomaly {
                Some(a) => a.anomaly_type.spec_image(),
                None => FALLBACK_FIGHTER_IMAGE@,
            },
    {
        match &self.anomaly {
            Some(a) => a.image().to_owned(),
            None => FALLBACK_FIGHTER_IMAGE.to_owned(),
        }
    }
}

} // verus!
