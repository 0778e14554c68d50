use phoenix::anomalies::generate_anomaly_with;
use phoenix::anomalies::generate_random_anomaly;
use phoenix::anomalies::get_anomaly_from_type;
use phoenix::anomalies::AnomalyRolls;
use phoenix::anomalies::AnomalyType;
use phoenix::errors::GameError;
use phoenix::regions::RegionType;

fn fixed_rolls() -> AnomalyRolls {
    AnomalyRolls {
        archetype_choice: 0,
        level_jitter_pct: 100,
        potency_jitter: 2,
        potency_divisor: 10,
        reward_value_per_mille: 80,
        xp_multiplier: 5,
    }
}

#[test]
fn swamp_generation_is_exactly_ferak() {
    // The swamp's only archetype is the Ferak; with a level-1 player and a
    // jitter of 1.0 the scaling factor is 1, so its base stats carry over.
    let a = generate_anomaly_with(1, RegionType::Swamp, fixed_rolls()).unwrap();
    assert_eq!(a.anomaly_type, AnomalyType::Ferak);
    assert_eq!(a.level, 1);
    assert_eq!(a.health.max, 60);
    assert_eq!(a.health.value, 60);
    assert_eq!(a.mana.max, 5);
    assert_eq!(a.strength, 30);
    assert_eq!(a.agility, 5);
    assert_eq!(a.intelligence, 1);
    // Potency in thousandths: 60*1100 + 5*1100 + 30*1667 + (5+1+2)*1000/10
    // = 122310; value = 122310 * 80 / 1_000_000 = 9; multiplier = 9;
    // xp = 5 * 9 = 45; gold = 2 * (9 * 8 / 10) = 14.
    assert_eq!(a.rewards.xp, 45);
    assert_eq!(a.rewards.gold, 14);
}

#[test]
fn scaling_multiplies_base_stats() {
    // Effective level 10 gives factor max(1, 10 * 13 / 10) = 13.
    let a = generate_anomaly_with(10, RegionType::Swamp, fixed_rolls()).unwrap();
    assert_eq!(a.level, 10);
    assert_eq!(a.health.max, 13 * 60);
    assert_eq!(a.mana.max, 13 * 5);
    assert_eq!(a.strength, 13 * 30);
    assert_eq!(a.agility, 13 * 5);
    assert_eq!(a.intelligence, 13 * 1);
}

#[test]
fn level_jitter_scales_player_level() {
    let mut rolls = fixed_rolls();
    rolls.level_jitter_pct = 80;
    let low = generate_anomaly_with(10, RegionType::Swamp, rolls).unwrap();
    assert_eq!(low.level, 8);
    rolls.level_jitter_pct = 129;
    let high = generate_anomaly_with(10, RegionType::Swamp, rolls).unwrap();
    assert_eq!(high.level, 12);
}

#[test]
fn city_has_no_archetype() {
    assert_eq!(
        generate_anomaly_with(5, RegionType::City, fixed_rolls()),
        Err(GameError::NoValidArchetype)
    );
    assert_eq!(
        generate_random_anomaly(5, RegionType::City),
        Err(GameError::NoValidArchetype)
    );
}

#[test]
fn archetype_choice_wraps_over_valid_entries() {
    // The grassland knows three archetypes, in catalog order: Treant,
    // Oozeling, Nightfall.
    let mut rolls = fixed_rolls();
    rolls.archetype_choice = 1;
    let a = generate_anomaly_with(1, RegionType::Grassland, rolls).unwrap();
    assert_eq!(a.anomaly_type, AnomalyType::Oozeling);
    rolls.archetype_choice = 5;
    let b = generate_anomaly_with(1, RegionType::Grassland, rolls).unwrap();
    assert_eq!(b.anomaly_type, AnomalyType::Nightfall);
}

#[test]
fn random_generation_floors_everything_at_one() {
    for _ in 0..50 {
        let a = generate_random_anomaly(1, RegionType::Forest).unwrap();
        assert!(a.health.max >= 1);
        assert!(a.mana.max >= 1);
        assert!(a.strength >= 1);
        assert!(a.agility >= 1);
        assert!(a.intelligence >= 1);
        assert!(a.level >= 1);
        assert!(a.rewards.xp >= 1);
        assert!(a.rewards.gold >= 1);
    }
}

#[test]
fn random_generation_respects_level_jitter_range() {
    for _ in 0..50 {
        let a = generate_random_anomaly(10, RegionType::Grassland).unwrap();
        assert!(8 <= a.level && a.level <= 12);
    }
}

#[test]
fn catalog_lookup_gives_fresh_level_one_instance() {
    let a = get_anomaly_from_type(AnomalyType::Treant).unwrap();
    assert_eq!(a.anomaly_type, AnomalyType::Treant);
    assert_eq!(a.level, 1);
    assert_eq!(a.health.max, 60);
    assert_eq!(a.health.value, 60);
    assert_eq!(a.mana.max, 10);
    assert_eq!(a.strength, 10);
    assert_eq!(a.rewards.xp, 0);
    assert_eq!(a.rewards.gold, 0);
    assert_eq!(a.name(), "Treant");
    assert_eq!(a.image(), "https://i.imgur.com/QuWuU0j.png");
}

#[test]
fn names_cover_the_catalog() {
    assert_eq!(get_anomaly_from_type(AnomalyType::Orc).unwrap().name(), "Orc");
    assert_eq!(
        get_anomaly_from_type(AnomalyType::Guardian).unwrap().name(),
        "Guardião"
    );
    assert_eq!(
        get_anomaly_from_type(AnomalyType::Timberwraith).unwrap().name(),
        "Timberwraith"
    );
}
