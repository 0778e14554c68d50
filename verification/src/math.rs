use vstd::prelude::*;

verus! {

/// Upper bound on a combat attribute (strength, agility, intelligence) so
/// that every damage and chance formula stays within `i32`.
pub const MAX_ATTRIBUTE: i32 = 500_000_000;

/// A chance from a scaled ratio `numer / denom`, truncated and clamped to a
/// percentage in `[0, 100]`; a non-positive denominator is guarded as a
/// defensive 0% instead of a division by zero.
pub open spec fn ratio_chance_spec(numer: int, denom: int) -> int {
    if denom <= 0 || numer < 0 {
        0
    } else if numer / denom > 100 {
        100
    } else {
        numer / denom
    }
}

/// The chance that a defender with agility `agility_a` dodges an attacker
/// with agility `agility_b`: the ratio `(agility_a + 1) / (agility_b + 1)`
/// scaled by 7.5, expressed exactly as `(agility_a + 1) * 15 / ((agility_b + 1) * 2)`.
pub open spec fn dodge_chance_spec(agility_a: int, agility_b: int) -> int {
    ratio_chance_spec((agility_a + 1) * 15, (agility_b + 1) * 2)
}

/// The chance that an attacker with intelligence `intelligence_a` lands a
/// critical hit on a defender with intelligence `intelligence_b`: the ratio
/// `(intelligence_a + 1) / (intelligence_b + 1)` scaled by 7.7, expressed
/// exactly as `(intelligence_a + 1) * 77 / ((intelligence_b + 1) * 10)`.
pub open spec fn critical_chance_spec(intelligence_a: int, intelligence_b: int) -> int {
    ratio_chance_spec((intelligence_a + 1) * 77, (intelligence_b + 1) * 10)
}

/// Attack damage: the attacker's strength scaled by a multiplier given in
/// hundredths, truncated toward zero.
pub open spec fn damage_spec(strength: int, multiplier_pct: int) -> int {
    strength * multiplier_pct / 100
}

/// Computes a clamped ratio chance from an already scaled numerator and
/// denominator.
fn ratio_chance(numer: i64, denom: i64) -> (r: i32)
    ensures
        r == ratio_chance_spec(numer as int, denom as int),
        0 <= r <= 100,
{
    if denom <= 0 || numer < 0 {
        0
    } else {
        let q: i64 = numer / denom;
        proof {
            vstd::arithmetic::div_mod::lemma_div_pos_is_pos(numer as int, denom as int);
        }
        if q > 100 {
            100
        } else {
            q as i32
        }
    }
}

/// The dodge chance of a defender with agility `agility_a` against an
/// attacker with agility `agility_b`, as a percentage in `[0, 100]`.
pub fn calculate_dodge_chance(agility_a: i32, agility_b: i32) -> (r: i32)
    ensures
        r == dodge_chance_spec(agility_a as int, agility_b as int),
        0 <= r <= 100,
{
    ratio_chance((agility_a as i64 + 1) * 15, (agility_b as i64 + 1) * 2)
}

/// The critical-hit chance of an attacker with intelligence `intelligence_a`
/// against a defender with intelligence `intelligence_b`, as a percentage in
/// `[0, 100]`.
pub fn calculate_critical_chance(intelligence_a: i32, intelligence_b: i32) -> (r: i32)
    ensures
        r == critical_chance_spec(intelligence_a as int, intelligence_b as int),
        0 <= r <= 100,
{
    ratio_chance((intelligence_a as i64 + 1) * 77, (intelligence_b as i64 + 1) * 10)
}

/// The experience needed to leave `level`: 100 * level * 1.5, exactly
/// `150 * level`.
pub fn calculate_xp_required_for_level_up(level: i32) -> (r: i32)
    requires
        0 <= level,
        150 * level <= i32::MAX,
    ensures
        r == 150 * level,
{
    150 * level
}

/// Attack damage from strength and a multiplier in hundredths, truncated.
pub fn damage_from(strength: i32, multiplier_pct: u32) -> (r: i32)
    requires
        0 <= strength <= MAX_ATTRIBUTE,
        multiplier_pct <= 400,
    ensures
        r == damage_spec(strength as int, multiplier_pct as int),
        0 <= r,
{
    proof {
        let s = strength as int;
        let m = multiplier_pct as int;
        assert(0 <= s * m <= 400 * MAX_ATTRIBUTE) by (nonlinear_arith)
            requires
                0 <= s <= MAX_ATTRIBUTE,
                0 <= m <= 400,
        ;
        vstd::arithmetic::div_mod::lemma_div_pos_is_pos(s * m, 100);
        vstd::arithmetic::div_mod::lemma_div_is_ordered(s * m, 400 * MAX_ATTRIBUTE as int, 100);
    }
    let raw: i64 = strength as i64 * multiplier_pct as i64;
    (raw / 100) as i32
}

/// A critical hit never deals less damage than a plain hit from the same
/// base multiplier: the critical bonus is non-negative, and damage grows
/// with the multiplier.
pub proof fn lemma_critical_damage_not_less(strength: int, multiplier_pct: int, bonus_pct: int)
    requires
        strength >= 0,
        multiplier_pct >= 0,
        bonus_pct >= 0,
    ensures
        damage_spec(strength, multiplier_pct + bonus_pct) >= damage_spec(strength, multiplier_pct),
{
    assert(strength * (multiplier_pct + bonus_pct) >= strength * multiplier_pct) by (nonlinear_arith)
        requires
            strength >= 0,
            bonus_pct >= 0,
    ;
    vstd::arithmetic::div_mod::lemma_div_is_ordered(
        strength * multiplier_pct,
        strength * (multiplier_pct + bonus_pct),
        100,
    );
}

} // verus!
