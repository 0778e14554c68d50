//! Procedurally generated monster encounters ("anomalies").
//!
//! All randomness is drawn as plain integers and handed to a deterministic
//! generator, so the whole scaling and reward computation is a proved
//! function of the drawn values. The tunable constants of the generator are
//! gathered below: the effective level jitters within
//! [`LEVEL_JITTER_MIN_PCT`, `LEVEL_JITTER_MAX_PCT`] hundredths of the player
//! level, every base stat scales by `level * 1.3` (as
//! [`STAT_FACTOR_TENTHS`] tenths) floored at 1, the potency jitter and
//! divisor are drawn from [`POTENCY_JITTER_MIN`, `POTENCY_JITTER_MAX`] and
//! [`POTENCY_DIVISOR_MIN`, `POTENCY_DIVISOR_MAX`], the reward value takes
//! [`REWARD_VALUE_MIN_PER_MILLE`, `REWARD_VALUE_MAX_PER_MILLE`] thousandths
//! of the potency, and the experience multiplier is drawn from
//! [`XP_MULTIPLIER_MIN`, `XP_MULTIPLIER_MAX`] while gold always doubles
//! 8/10 of the reward multiplier. Every stat and reward is floored at 1.

use vstd::prelude::*;

use crate::common::Stat;
use crate::errors::GameError;
use crate::regions::RegionSet;
use crate::regions::RegionType;
use crate::rng::random_below;

verus! {

/// Smallest hundredth-multiplier applied to the player level.
pub const LEVEL_JITTER_MIN_PCT: u32 = 80;

/// Largest hundredth-multiplier applied to the player level.
pub const LEVEL_JITTER_MAX_PCT: u32 = 129;

/// The stat scaling multiplier 1.3, in tenths.
pub const STAT_FACTOR_TENTHS: i32 = 13;

/// Smallest flat jitter added to agility and intelligence in the potency.
pub const POTENCY_JITTER_MIN: u32 = 2;

/// Largest flat jitter added to agility and intelligence in the potency.
pub const POTENCY_JITTER_MAX: u32 = 6;

/// Smallest divisor of the agility and intelligence term of the potency.
pub const POTENCY_DIVISOR_MIN: u32 = 10;

/// Largest divisor of the agility and intelligence term of the potency.
pub const POTENCY_DIVISOR_MAX: u32 = 11;

/// Smallest share of the potency, in thousandths, that sizes the rewards.
pub const REWARD_VALUE_MIN_PER_MILLE: u32 = 80;

/// Largest share of the potency, in thousandths, that sizes the rewards.
pub const REWARD_VALUE_MAX_PER_MILLE: u32 = 99;

/// Smallest experience multiplier.
pub const XP_MULTIPLIER_MIN: u32 = 5;

/// Largest experience multiplier.
pub const XP_MULTIPLIER_MAX: u32 = 6;

/// Largest player level the generator accepts; keeps every scaled stat and
/// reward within `i32`.
pub const MAX_PLAYER_LEVEL: i32 = 1_000_000;

/// The anomaly archetypes.
#[derive(Debug, Clone, Copy, PartialEq, Eq, Structural)]
pub enum AnomalyType {
    Treant,
    Orc,
    Vexbug,
    Guardian,
    Ferak,
    Oozeling,
    Nightfall,
    Timberwraith,
}

impl AnomalyType {
    /// The characters of the archetype's display name.
    pub open spec fn spec_name(self) -> Seq<char> {
        match self {
            AnomalyType::Treant => "Treant"@,
            AnomalyType::Orc => "Orc"@,
            AnomalyType::Vexbug => "Vexbug"@,
            AnomalyType::Timberwraith => "Timberwraith"@,
            AnomalyType::Guardian => "Guardião"@,
            AnomalyType::Ferak => "Ferak"@,
            AnomalyType::Oozeling => "Oozeling"@,
            AnomalyType::Nightfall => "Nightfall"@,
        }
    }

    /// The characters of the archetype's picture address.
    pub open spec fn spec_image(self) -> Seq<char> {
        match self {
            AnomalyType::Treant => "https://i.imgur.com/QuWuU0j.png"@,
            AnomalyType::Orc => "https://i.imgur.com/wIfjahq.png"@,
            AnomalyType::Vexbug => "https://i.imgur.com/PWpbL8r.png"@,
            AnomalyType::Guardian => "https://i.imgur.com/wWkkOJX.png"@,
            AnomalyType::Ferak => "https://i.imgur.com/sNnkwxi.png"@,
            AnomalyType::Oozeling => "https://i.imgur.com/hro2X3W.png"@,
            AnomalyType::Nightfall => "https://i.imgur.com/ddX6CCu.png"@,
            AnomalyType::Timberwraith => "https://i.imgur.com/w6xnlJf.png"@,
        }
    }

    /// The archetype's display name.
    pub fn name(&self) -> (r: &'static str)
        ensures
            r@ == self.spec_name(),
    {
        match self {
            AnomalyType::Treant => "Treant",
            AnomalyType::Orc => "Orc",
            AnomalyType::Vexbug => "Vexbug",
            AnomalyType::Timberwraith => "Timberwraith",
            AnomalyType::Guardian => "Guardião",
            AnomalyType::Ferak => "Ferak",
            AnomalyType::Oozeling => "Oozeling",
            AnomalyType::Nightfall => "Nightfall",
        }
    }

    /// The archetype's picture address.
    pub fn image(&self) -> (r: &'static str)
        ensures
            r@ == self.spec_image(),
    {
        match self {
            AnomalyType::Treant => "https://i.imgur.com/QuWuU0j.png",
            AnomalyType::Orc => "https://i.imgur.com/wIfjahq.png",
            AnomalyType::Vexbug => "https://i.imgur.com/PWpbL8r.png",
            AnomalyType::Guardian => "https://i.imgur.com/wWkkOJX.png",
            AnomalyType::Ferak => "https://i.imgur.com/sNnkwxi.png",
            AnomalyType::Oozeling => "https://i.imgur.com/hro2X3W.png",
            AnomalyType::Nightfall => "https://i.imgur.com/ddX6CCu.png",
            AnomalyType::Timberwraith => "https://i.imgur.com/w6xnlJf.png",
        }
    }
}

/// Rare variants an anomaly can appear as.
#[derive(Debug, Clone, Copy, PartialEq, Eq, Structural)]
pub enum AnomalyVariant {
    Phantom,
    Giant,
}

/// A static anomaly archetype: base stats and the regions it is native to.
#[derive(Debug, Clone, Copy, PartialEq, Eq, Structural)]
pub struct AnomalyDefinition {
    pub anomaly_type: AnomalyType,
    pub health: Stat,
    pub mana: Stat,
    pub strength: i32,
    pub agility: i32,
    pub intelligence: i32,
    pub valid_regions: RegionSet,
}

/// What defeating an anomaly pays out.
#[derive(Debug, Clone, Copy, PartialEq, Eq, Structural)]
pub struct AnomalyDrops {
    pub xp: i32,
    pub gold: i32,
}

/// A generated encounter: an archetype scaled to an effective level, with
/// its rewards already sized.
#[derive(Debug, Clone, Copy, PartialEq, Eq, Structural)]
pub struct Anomaly {
    pub definition: AnomalyDefinition,
    pub anomaly_type: AnomalyType,
    pub variant: Option<AnomalyVariant>,
    pub health: Stat,
    pub mana: Stat,
    pub strength: i32,
    pub agility: i32,
    pub intelligence: i32,
    pub level: i32,
    pub rewards: AnomalyDrops,
}

impl Anomaly {
    /// The display name of the anomaly's archetype.
    pub fn name(&self) -> (r: &'static str)
        ensures
            r@ == self.anomaly_type.spec_name(),
    {
        self.anomaly_type.name()
    }

    /// The picture address of the anomaly's archetype.
    pub fn image(&self) -> (r: &'static str)
        ensures
            r@ == self.anomaly_type.spec_image(),
    {
        self.anomaly_type.image()
    }
}

/// Every catalog archetype has fresh base stat pools and every base number
/// within [1, 250]; the generator's overflow bounds rest on this.
pub open spec fn def_ok(d: AnomalyDefinition) -> bool {
    &&& d.health.value == d.health.max
    &&& 1 <= d.health.max <= 250
    &&& d.mana.value == d.mana.max
    &&& 1 <= d.mana.max <= 250
    &&& 1 <= d.strength <= 250
    &&& 1 <= d.agility <= 250
    &&& 1 <= d.intelligence <= 250
}

/// The catalog entry for each archetype.
pub open spec fn def_of_type(anomaly_type: AnomalyType) -> AnomalyDefinition {
    match anomaly_type {
        AnomalyType::Treant => AnomalyDefinition {
            anomaly_type: AnomalyType::Treant,
            health: Stat { max: 60, value: 60 },
            mana: Stat { max: 10, value: 10 },
            strength: 10,
            agility: 1,
            intelligence: 3,
            valid_regions: RegionSet { forest: false, city: false, swamp: false, grassland: true },
        },
        AnomalyType::Orc => AnomalyDefinition {
            anomaly_type: AnomalyType::Orc,
            health: Stat { max: 100, value: 100 },
            mana: Stat { max: 10, value: 10 },
            strength: 20,
            agility: 5,
            intelligence: 3,
            valid_regions: RegionSet { forest: true, city: false, swamp: false, grassland: false },
        },
        AnomalyType::Vexbug => AnomalyDefinition {
            anomaly_type: AnomalyType::Vexbug,
            health: Stat { max: 60, value: 60 },
            mana: Stat { max: 15, value: 15 },
            strength: 10,
            agility: 3,
            intelligence: 15,
            valid_regions: RegionSet { forest: true, city: false, swamp: false, grassland: false },
        },
        AnomalyType::Guardian => AnomalyDefinition {
            anomaly_type: AnomalyType::Guardian,
            health: Stat { max: 80, value: 80 },
            mana: Stat { max: 40, value: 40 },
            strength: 12,
            agility: 5,
            intelligence: 10,
            valid_regions: RegionSet { forest: true, city: false, swamp: false, grassland: false },
        },
        AnomalyType::Ferak => AnomalyDefinition {
            anomaly_type: AnomalyType::Ferak,
            health: Stat { max: 60, value: 60 },
            mana: Stat { max: 5, value: 5 },
            strength: 30,
            agility: 5,
            intelligence: 1,
            valid_regions: RegionSet { forest: true, city: false, swamp: true, grassland: false },
        },
        AnomalyType::Oozeling => AnomalyDefinition {
            anomaly_type: AnomalyType::Oozeling,
            health: Stat { max: 60, value: 60 },
            mana: Stat { max: 15, value: 15 },
            strength: 10,
            agility: 15,
            intelligence: 2,
            valid_regions: RegionSet { forest: false, city: false, swamp: false, grassland: true },
        },
        AnomalyType::Nightfall => AnomalyDefinition {
            anomaly_type: AnomalyType::Nightfall,
            health: Stat { max: 110, value: 110 },
            mana: Stat { max: 30, value: 30 },
            strength: 30,
            agility: 10,
            intelligence: 10,
            valid_regions: RegionSet { forest: false, city: false, swamp: false, grassland: true },
        },
        AnomalyType::Timberwraith => AnomalyDefinition {
            anomaly_type: AnomalyType::Timberwraith,
            health: Stat { max: 225, value: 225 },
            mana: Stat { max: 50, value: 50 },
            strength: 20,
            agility: 15,
            intelligence: 10,
            valid_regions: RegionSet { forest: true, city: false, swamp: false, grassland: false },
        },
    }
}

/// The full archetype catalog, in its fixed order.
pub open spec fn spec_catalog() -> Seq<AnomalyDefinition> {
    seq![
        def_of_type(AnomalyType::Treant),
        def_of_type(AnomalyType::Orc),
        def_of_type(AnomalyType::Vexbug),
        def_of_type(AnomalyType::Guardian),
        def_of_type(AnomalyType::Ferak),
        def_of_type(AnomalyType::Oozeling),
        def_of_type(AnomalyType::Nightfall),
        def_of_type(AnomalyType::Timberwraith),
    ]
}

/// The catalog entry for the given archetype.
fn def_by_type(anomaly_type: AnomalyType) -> (r: AnomalyDefinition)
    ensures
        r == def_of_type(anomaly_type),
        def_ok(r),
{
    match anomaly_type {
        AnomalyType::Treant => AnomalyDefinition {
            anomaly_type: AnomalyType::Treant,
            health: Stat::new(60),
            mana: Stat::new(10),
            strength: 10,
            agility: 1,
            intelligence: 3,
            valid_regions: RegionSet { forest: false, city: false, swamp: false, grassland: true },
        },
        AnomalyType::Orc => AnomalyDefinition {
            anomaly_type: AnomalyType::Orc,
            health: Stat::new(100),
            mana: Stat::new(10),
            strength: 20,
            agility: 5,
            intelligence: 3,
            valid_regions: RegionSet { forest: true, city: false, swamp: false, grassland: false },
        },
        AnomalyType::Vexbug => AnomalyDefinition {
            anomaly_type: AnomalyType::Vexbug,
            health: Stat::new(60),
            mana: Stat::new(15),
            strength: 10,
            agility: 3,
            intelligence: 15,
            valid_regions: RegionSet { forest: true, city: false, swamp: false, grassland: false },
        },
        AnomalyType::Guardian => AnomalyDefinition {
            anomaly_type: AnomalyType::Guardian,
            health: Stat::new(80),
            mana: Stat::new(40),
            strength: 12,
            agility: 5,
            intelligence: 10,
            valid_regions: RegionSet { forest: true, city: false, swamp: false, grassland: false },
        },
        AnomalyType::Ferak => AnomalyDefinition {
            anomaly_type: AnomalyType::Ferak,
            health: Stat::new(60),
            mana: Stat::new(5),
            strength: 30,
            agility: 5,
            intelligence: 1,
            valid_regions: RegionSet { forest: true, city: false, swamp: true, grassland: false },
        },
        AnomalyType::Oozeling => AnomalyDefinition {
            anomaly_type: AnomalyType::Oozeling,
            health: Stat::new(60),
            mana: Stat::new(15),
            strength: 10,
            agility: 15,
            intelligence: 2,
            valid_regions: RegionSet { forest: false, city: false, swamp: false, grassland: true },
        },
        AnomalyType::Nightfall => AnomalyDefinition {
            anomaly_type: AnomalyType::Nightfall,
            health: Stat::new(110),
            mana: Stat::new(30),
            strength: 30,
            agility: 10,
            intelligence: 10,
            valid_regions: RegionSet { forest: false, city: false, swamp: false, grassland: true },
        },
        AnomalyType::Timberwraith => AnomalyDefinition {
            anomaly_type: AnomalyType::Timberwraith,
            health: Stat::new(225),
            mana: Stat::new(50),
            strength: 20,
            agility: 15,
            intelligence: 10,
            valid_regions: RegionSet { forest: true, city: false, swamp: false, grassland: false },
        },
    }
}

/// Builds the archetype catalog.
fn all_anomalies() -> (r: Vec<AnomalyDefinition>)
    ensures
        r@ == spec_catalog(),
        forall|j: int| 0 <= j < r@.len() ==> def_ok(#[trigger] r@[j]),
{
    let mut v: Vec<AnomalyDefinition> = Vec::new();
    v.push(def_by_type(AnomalyType::Treant));
    v.push(def_by_type(AnomalyType::Orc));
    v.push(def_by_type(AnomalyType::Vexbug));
    v.push(def_by_type(AnomalyType::Guardian));
    v.push(def_by_type(AnomalyType::Ferak));
    v.push(def_by_type(AnomalyType::Oozeling));
    v.push(def_by_type(AnomalyType::Nightfall));
    v.push(def_by_type(AnomalyType::Timberwraith));
    proof {
        assert(v@ =~= spec_catalog());
    }
    v
}

/// A fresh level-1 instance of an archetype, before any scaling, with empty
/// rewards.
pub open spec fn instance_of(def: AnomalyDefinition) -> Anomaly {
    Anomaly {
        definition: def,
        anomaly_type: def.anomaly_type,
        variant: None,
        health: def.health,
        mana: def.mana,
        strength: def.strength,
        agility: def.agility,
        intelligence: def.intelligence,
        level: 1,
        rewards: AnomalyDrops { xp: 0, gold: 0 },
    }
}

/// Looks the archetype up in the catalog and returns its unscaled level-1
/// instance; every archetype is in the catalog.
pub fn get_anomaly_from_type(anomaly: AnomalyType) -> (r: Option<Anomaly>)
    ensures
        r == Some(instance_of(def_of_type(anomaly))),
{
    let def = def_by_type(anomaly);
    Some(
        Anomaly {
            definition: def,
            anomaly_type: def.anomaly_type,
            variant: None,
            health: def.health,
            mana: def.mana,
            strength: def.strength,
            agility: def.agility,
            intelligence: def.intelligence,
            level: 1,
            rewards: AnomalyDrops { xp: 0, gold: 0 },
        },
    )
}

/// The catalog entries native to `region`, in catalog order.
pub open spec fn filter_valid(s: Seq<AnomalyDefinition>, region: RegionType) -> Seq<
    AnomalyDefinition,
>
    decreases s.len(),
{
    if s.len() == 0 {
        Seq::empty()
    } else if s.last().valid_regions.spec_contains(region) {
        filter_valid(s.drop_last(), region).push(s.last())
    } else {
        filter_valid(s.drop_last(), region)
    }
}

/// The archetypes an encounter in `region` can draw from.
pub open spec fn valid_defs(region: RegionType) -> Seq<AnomalyDefinition> {
    filter_valid(spec_catalog(), region)
}

/// The filtered catalog is empty exactly when no entry is native to the
/// region, and each kept entry is a native catalog entry.
proof fn lemma_filter_valid_props(s: Seq<AnomalyDefinition>, region: RegionType)
    ensures
        filter_valid(s, region).len() <= s.len(),
        (filter_valid(s, region).len() == 0 <==> (forall|j: int|
            0 <= j < s.len() ==> !(#[trigger] s[j]).valid_regions.spec_contains(region))),
        forall|k: int|
            0 <= k < filter_valid(s, region).len() ==> (exists|j: int|
                0 <= j < s.len() && #[trigger] filter_valid(s, region)[k] == s[j]
                    && s[j].valid_regions.spec_contains(region)),
    decreases s.len(),
{
    if s.len() > 0 {
        lemma_filter_valid_props(s.drop_last(), region);
        assert(forall|j: int| 0 <= j < s.len() - 1 ==> s.drop_last()[j] == #[trigger] s[j]);
        assert(s[s.len() - 1] == s.last());
    }
}

/// The random draws one anomaly generation consumes.
#[derive(Debug, Clone, Copy, PartialEq, Eq, Structural)]
pub struct AnomalyRolls {
    /// Picks the archetype among the region's valid entries (used modulo
    /// their number).
    pub archetype_choice: u32,
    /// Hundredth-multiplier of the player level.
    pub level_jitter_pct: u32,
    /// Flat jitter of the potency's agility and intelligence term.
    pub potency_jitter: u32,
    /// Divisor of the potency's agility and intelligence term.
    pub potency_divisor: u32,
    /// Thousandths of the potency that size the rewards.
    pub reward_value_per_mille: u32,
    /// Experience multiplier.
    pub xp_multiplier: u32,
}

impl AnomalyRolls {
    /// Every draw within its documented range.
    pub open spec fn wf(self) -> bool {
        &&& LEVEL_JITTER_MIN_PCT <= self.level_jitter_pct <= LEVEL_JITTER_MAX_PCT
        &&& POTENCY_JITTER_MIN <= self.potency_jitter <= POTENCY_JITTER_MAX
        &&& POTENCY_DIVISOR_MIN <= self.potency_divisor <= POTENCY_DIVISOR_MAX
        &&& REWARD_VALUE_MIN_PER_MILLE <= self.reward_value_per_mille
            <= REWARD_VALUE_MAX_PER_MILLE
        &&& XP_MULTIPLIER_MIN <= self.xp_multiplier <= XP_MULTIPLIER_MAX
    }
}

/// A base number scaled by the level and a multiplier in tenths, truncated
/// and floored at 1.
pub open spec fn factor_spec(level: int, multiplier_tenths: int) -> int {
    let raw = level * multiplier_tenths / 10;
    if raw < 1 {
        1
    } else {
        raw
    }
}

/// The deterministic stat scaling law: `level * multiplier` (multiplier
/// given in tenths), truncated and floored at 1.
pub fn factor(level: i32, multiplier_tenths: i32) -> (r: i32)
    requires
        1 <= level <= 2_000_000,
        0 <= multiplier_tenths <= 20,
    ensures
        r == factor_spec(level as int, multiplier_tenths as int),
        1 <= r,
{
    proof {
        assert(0 <= level as int * multiplier_tenths as int <= 40_000_000) by (nonlinear_arith)
            requires
                1 <= level <= 2_000_000,
                0 <= multiplier_tenths <= 20,
        ;
    }
    let raw: i32 = ((level as i64 * multiplier_tenths as i64) / 10) as i32;
    if raw < 1 {
        1
    } else {
        raw
    }
}

/// The player level jittered by a hundredth-multiplier, truncated and
/// floored at 1.
pub open spec fn effective_level_spec(player_level: int, jitter_pct: int) -> int {
    let raw = player_level * jitter_pct / 100;
    if raw < 1 {
        1
    } else {
        raw
    }
}

/// The potency heuristic in thousandths: a weighted sum of the scaled stats
/// (health and mana weighted 1.1, strength 1.667) plus the jittered agility
/// and intelligence share.
pub open spec fn potency_milli_spec(
    health: int,
    mana: int,
    strength: int,
    agility: int,
    intelligence: int,
    jitter: int,
    divisor: int,
) -> int {
    health * 1100 + mana * 1100 + strength * 1667 + (agility + intelligence + jitter) * 1000
        / divisor
}

/// Computes the reward-sizing potency of a scaled stat block, in
/// thousandths.
pub fn calculate_potency(
    health: i32,
    mana: i32,
    strength: i32,
    agility: i32,
    intelligence: i32,
    jitter: u32,
    divisor: u32,
) -> (r: i64)
    requires
        0 <= health,
        0 <= mana,
        0 <= strength,
        0 <= agility,
        0 <= intelligence,
        jitter <= 1000,
        1 <= divisor,
    ensures
        r == potency_milli_spec(
            health as int,
            mana as int,
            strength as int,
            agility as int,
            intelligence as int,
            jitter as int,
            divisor as int,
        ),
{
    let share: i64 = (agility as i64 + intelligence as i64 + jitter as i64) * 1000
        / divisor as i64;
    health as i64 * 1100 + mana as i64 * 1100 + strength as i64 * 1667 + share
}

/// The potency share, in thousandths of thousandths, that sizes the
/// rewards, floored at 1.
pub open spec fn reward_value_spec(potency_milli: int, per_mille: int) -> int {
    let raw = potency_milli * per_mille / 1_000_000;
    if raw < 1 {
        1
    } else {
        raw
    }
}

/// The anomaly that the given player level, region and draws generate.
pub open spec fn generated_spec(player_level: int, region: RegionType, rolls: AnomalyRolls) -> Anomaly {
    let defs = valid_defs(region);
    let def = defs[rolls.archetype_choice as int % defs.len() as int];
    let level = effective_level_spec(player_level, rolls.level_jitter_pct as int);
    let f = factor_spec(level, STAT_FACTOR_TENTHS as int);
    let health_max = f * def.health.max;
    let mana_max = f * def.mana.max;
    let strength = f * def.strength;
    let agility = f * def.agility;
    let intelligence = f * def.intelligence;
    let potency = potency_milli_spec(
        health_max,
        mana_max,
        strength,
        agility,
        intelligence,
        rolls.potency_jitter as int,
        rolls.potency_divisor as int,
    );
    let value = reward_value_spec(potency, rolls.reward_value_per_mille as int);
    let reward_multiplier = value + level / 5;
    let xp = rolls.xp_multiplier as int * reward_multiplier;
    let gold_raw = 2 * (reward_multiplier * 8 / 10);
    let gold = if gold_raw < 1 {
        1int
    } else {
        gold_raw
    };
    Anomaly {
        definition: def,
        anomaly_type: def.anomaly_type,
        variant: None,
        health: Stat { max: health_max as i32, value: health_max as i32 },
        mana: Stat { max: mana_max as i32, value: mana_max as i32 },
        strength: strength as i32,
        agility: agility as i32,
        intelligence: intelligence as i32,
        level: level as i32,
        rewards: AnomalyDrops { xp: xp as i32, gold: gold as i32 },
    }
}

/// No stat, level or reward of a generated anomaly is below 1, its stat
/// pools are fresh, and it comes from an archetype native to the region.
pub open spec fn generated_ok(a: Anomaly, region: RegionType) -> bool {
    &&& a.health.value == a.health.max >= 1
    &&& a.mana.value == a.mana.max >= 1
    &&& 1 <= a.strength <= crate::math::MAX_ATTRIBUTE
    &&& 1 <= a.agility <= crate::math::MAX_ATTRIBUTE
    &&& 1 <= a.intelligence <= crate::math::MAX_ATTRIBUTE
    &&& 1 <= a.level <= 1_290_000
    &&& a.rewards.xp >= 1
    &&& a.rewards.gold >= 1
    &&& a.definition.valid_regions.spec_contains(region)
    &&& a.anomaly_type == a.definition.anomaly_type
}

/// The archetypes native to `region`, with the bounds the generator's
/// arithmetic rests on.
fn valid_definitions(region: RegionType) -> (v: Vec<AnomalyDefinition>)
    ensures
        v@ == valid_defs(region),
        forall|k: int| 0 <= k < v@.len() ==> def_ok(#[trigger] v@[k]),
        forall|k: int|
            0 <= k < v@.len() ==> (#[trigger] v@[k]).valid_regions.spec_contains(region),
{
    let catalog = all_anomalies();
    let mut v: Vec<AnomalyDefinition> = Vec::new();
    let mut i: usize = 0;
    while i < catalog.len()
        invariant
            i <= catalog.len(),
            catalog@ == spec_catalog(),
            forall|j: int| 0 <= j < catalog@.len() ==> def_ok(#[trigger] catalog@[j]),
            v@ == filter_valid(catalog@.take(i as int), region),
            forall|k: int| 0 <= k < v@.len() ==> def_ok(#[trigger] v@[k]),
            forall|k: int|
                0 <= k < v@.len() ==> (#[trigger] v@[k]).valid_regions.spec_contains(region),
        decreases catalog.len() - i,
    {
        let def = catalog[i];
        proof {
            assert(catalog@.take(i as int + 1).drop_last() =~= catalog@.take(i as int));
            assert(catalog@.take(i as int + 1).last() == catalog@[i as int]);
        }
        if def.valid_regions.contains(region) {
            v.push(def);
        }
        i = i + 1;
    }
    proof {
        assert(catalog@.take(catalog@.len() as int) =~= catalog@);
    }
    v
}

/// Generates the anomaly determined by the given draws: picks a native
/// archetype, scales its stats by the jittered level, and sizes the
/// rewards from the potency. Fails with `NoValidArchetype` exactly when the
/// region has no native archetype.
pub fn generate_anomaly_with(player_level: i32, region_type: RegionType, rolls: AnomalyRolls) -> (r:
    Result<Anomaly, GameError>)
    requires
        1 <= player_level <= MAX_PLAYER_LEVEL,
        rolls.wf(),
    ensures
        (r is Err) <==> (forall|j: int|
            0 <= j < spec_catalog().len() ==> !(#[trigger] spec_catalog()[j]).valid_regions.spec_contains(
                region_type,
            )),
        r is Err ==> r == Err::<Anomaly, GameError>(GameError::NoValidArchetype),
        r matches Ok(a) ==> a == generated_spec(player_level as int, region_type, rolls),
        r matches Ok(a) ==> generated_ok(a, region_type),
{
    let valid = valid_definitions(region_type);
    proof {
        lemma_filter_valid_props(spec_catalog(), region_type);
    }
    if valid.len() == 0 {
        return Err(GameError::NoValidArchetype);
    }
    let choice: usize = (rolls.archetype_choice as usize) % valid.len();
    let def = valid[choice];

    proof {
        assert(1 <= player_level as int * rolls.level_jitter_pct as int <= 129 * MAX_PLAYER_LEVEL)
            by (nonlinear_arith)
            requires
                1 <= player_level <= MAX_PLAYER_LEVEL,
                80 <= rolls.level_jitter_pct <= 129,
        ;
    }
    let level_raw: i64 = player_level as i64 * rolls.level_jitter_pct as i64 / 100;
    let level: i32 = if level_raw < 1 {
        1
    } else {
        level_raw as i32
    };
    assert(level == effective_level_spec(player_level as int, rolls.level_jitter_pct as int));
    assert(1 <= level <= 1_290_000);

    let f = factor(level, STAT_FACTOR_TENTHS);
    assert(f <= 1_677_000);

    proof {
        assert(1 <= f as int * def.health.max && f as int * def.health.max <= 419_250_000
            && 1 <= f as int * def.mana.max && f as int * def.mana.max <= 419_250_000
            && 1 <= f as int * def.strength && f as int * def.strength <= 419_250_000
            && 1 <= f as int * def.agility && f as int * def.agility <= 419_250_000
            && 1 <= f as int * def.intelligence && f as int * def.intelligence <= 419_250_000)
            by (nonlinear_arith)
            requires
                1 <= f <= 1_677_000,
                def_ok(def),
        ;
    }
    let health_max: i32 = (f as i64 * def.health.max as i64) as i32;
    let mana_max: i32 = (f as i64 * def.mana.max as i64) as i32;
    let strength: i32 = (f as i64 * def.strength as i64) as i32;
    let agility: i32 = (f as i64 * def.agility as i64) as i32;
    let intelligence: i32 = (f as i64 * def.intelligence as i64) as i32;

    let potency: i64 = calculate_potency(
        health_max,
        mana_max,
        strength,
        agility,
        intelligence,
        rolls.potency_jitter,
        rolls.potency_divisor,
    );
    proof {
        let share = (agility as int + intelligence as int + rolls.potency_jitter as int) * 1000;
        assert(0 <= share <= 838_500_006_000);
        vstd::arithmetic::div_mod::lemma_div_pos_is_pos(share, rolls.potency_divisor as int);
        vstd::arithmetic::div_mod::lemma_div_is_ordered_by_denominator(
            share,
            10,
            rolls.potency_divisor as int,
        );
        vstd::arithmetic::div_mod::lemma_div_is_ordered(share, 838_500_006_000, 10);
        assert(potency <= 419_250_000int * 1100 + 419_250_000int * 1100 + 419_250_000int * 1667
            + 83_850_000_600int);
    }
    assert(0 <= potency <= 1_706_000_000_000i64);

    proof {
        assert(0 <= potency as int * rolls.reward_value_per_mille as int
            <= 169_000_000_000_000) by (nonlinear_arith)
            requires
                0 <= potency <= 1_706_000_000_000i64,
                rolls.reward_value_per_mille <= 99,
        ;
        vstd::arithmetic::div_mod::lemma_div_pos_is_pos(
            potency as int * rolls.reward_value_per_mille as int,
            1_000_000,
        );
        vstd::arithmetic::div_mod::lemma_div_is_ordered(
            potency as int * rolls.reward_value_per_mille as int,
            169_000_000_000_000,
            1_000_000,
        );
    }
    let value_raw: i64 = potency * rolls.reward_value_per_mille as i64 / 1_000_000;
    let value: i64 = if value_raw < 1 {
        1
    } else {
        value_raw
    };
    assert(1 <= value <= 169_000_000);

    let reward_multiplier: i64 = value + (level / 5) as i64;
    assert(1 <= reward_multiplier <= 169_258_000);

    proof {
        assert(5 * reward_multiplier as int <= rolls.xp_multiplier as int * reward_multiplier as int
            <= 6 * reward_multiplier as int) by (nonlinear_arith)
            requires
                5 <= rolls.xp_multiplier <= 6,
                1 <= reward_multiplier,
        ;
    }
    let xp: i64 = rolls.xp_multiplier as i64 * reward_multiplier;
    let gold_raw: i64 = 2 * (reward_multiplier * 8 / 10);
    let gold: i64 = if gold_raw < 1 {
        1
    } else {
        gold_raw
    };

    let anomaly = Anomaly {
        definition: def,
        anomaly_type: def.anomaly_type,
        variant: None,
        health: Stat { max: health_max, value: health_max },
        mana: Stat { max: mana_max, value: mana_max },
        strength,
        agility,
        intelligence,
        level,
        rewards: AnomalyDrops { xp: xp as i32, gold: gold as i32 },
    };
    Ok(anomaly)
}

/// Generates a random anomaly for an encounter: a uniformly chosen native
/// archetype, scaled by a jittered level, with rewards sized from the
/// potency. Fails with `NoValidArchetype` exactly when the region has no
/// native archetype; every success satisfies the generation floor of 1 on
/// stats, level and rewards.
pub fn generate_random_anomaly(player_level: i32, region_type: RegionType) -> (r: Result<
    Anomaly,
    GameError,
>)
    requires
        1 <= player_level <= MAX_PLAYER_LEVEL,
    ensures
        (r is Err) <==> (forall|j: int|
            0 <= j < spec_catalog().len() ==> !(#[trigger] spec_catalog()[j]).valid_regions.spec_contains(
                region_type,
            )),
        r is Err ==> r == Err::<Anomaly, GameError>(GameError::NoValidArchetype),
        r matches Ok(a) ==> (exists|rolls: AnomalyRolls|
            rolls.wf() && a == #[trigger] generated_spec(player_level as int, region_type, rolls)),
        r matches Ok(a) ==> generated_ok(a, region_type),
{
    let valid = valid_definitions(region_type);
    proof {
        lemma_filter_valid_props(spec_catalog(), region_type);
    }
    if valid.len() == 0 {
        return Err(GameError::NoValidArchetype);
    }
    let rolls = AnomalyRolls {
        archetype_choice: random_below(valid.len() as u32),
        level_jitter_pct: LEVEL_JITTER_MIN_PCT + random_below(
            LEVEL_JITTER_MAX_PCT - LEVEL_JITTER_MIN_PCT + 1,
        ),
        potency_jitter: POTENCY_JITTER_MIN + random_below(
            POTENCY_JITTER_MAX - POTENCY_JITTER_MIN + 1,
        ),
        potency_divisor: POTENCY_DIVISOR_MIN + random_below(
            POTENCY_DIVISOR_MAX - POTENCY_DIVISOR_MIN + 1,
        ),
        reward_value_per_mille: REWARD_VALUE_MIN_PER_MILLE + random_below(
            REWARD_VALUE_MAX_PER_MILLE - REWARD_VALUE_MIN_PER_MILLE + 1,
        ),
        xp_multiplier: XP_MULTIPLIER_MIN + random_below(XP_MULTIPLIER_MAX - XP_MULTIPLIER_MIN + 1),
    };
    match generate_anomaly_with(player_level, region_type, rolls) {
        Ok(a) => Ok(a),
        Err(e) => Err(e),
    }
}

} // verus!
