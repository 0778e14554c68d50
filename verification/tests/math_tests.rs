use phoenix::math::calculate_critical_chance;
use phoenix::math::calculate_dodge_chance;
use phoenix::math::calculate_xp_required_for_level_up;
use phoenix::math::damage_from;

#[test]
fn dodge_chance_even_agility() {
    // Ratio 1.0 scaled by 7.5, truncated.
    assert_eq!(calculate_dodge_chance(5, 5), 7);
}

#[test]
fn dodge_chance_grows_with_defender_agility() {
    let low = calculate_dodge_chance(5, 20);
    let high = calculate_dodge_chance(20, 5);
    assert!(low < high);
    // (21 * 15) / (6 * 2) = 26.
    assert_eq!(high, 26);
}

#[test]
fn dodge_chance_clamps_at_hundred() {
    assert_eq!(calculate_dodge_chance(1000, 0), 100);
}

#[test]
fn dodge_chance_guards_negative_ratio() {
    assert_eq!(calculate_dodge_chance(-5, 3), 0);
    assert_eq!(calculate_dodge_chance(3, -1), 0);
}

#[test]
fn critical_chance_even_intelligence() {
    // Ratio 1.0 scaled by 7.7, truncated.
    assert_eq!(calculate_critical_chance(5, 5), 7);
}

#[test]
fn critical_chance_exact_value() {
    // (16 * 77) / (6 * 10) = 20.
    assert_eq!(calculate_critical_chance(15, 5), 20);
}

#[test]
fn xp_threshold_is_level_times_150() {
    assert_eq!(calculate_xp_required_for_level_up(1), 150);
    assert_eq!(calculate_xp_required_for_level_up(4), 600);
    assert_eq!(calculate_xp_required_for_level_up(0), 0);
}

#[test]
fn damage_scales_strength_by_multiplier() {
    assert_eq!(damage_from(20, 100), 20);
    assert_eq!(damage_from(20, 80), 16);
    assert_eq!(damage_from(20, 120), 24);
    assert_eq!(damage_from(15, 100), 15);
}

#[test]
fn damage_truncates_toward_zero() {
    assert_eq!(damage_from(3, 85), 2);
}

#[test]
fn critical_damage_not_below_plain_damage() {
    for strength in [0, 1, 2, 15, 20, 1000] {
        for mult in [80u32, 100, 120] {
            for bonus in [75u32, 100, 119] {
                assert!(damage_from(strength, mult + bonus) >= damage_from(strength, mult));
            }
        }
    }
}
