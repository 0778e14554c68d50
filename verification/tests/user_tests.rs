use phoenix::anomalies::AnomalyDrops;
use phoenix::anomalies::AnomalyType;
use phoenix::classes::ClassType;
use phoenix::cooldown::CooldownData;
use phoenix::cooldown::CooldownType;
use phoenix::user_model::UserData;

fn knight(name: &str) -> UserData {
    UserData::new(name.to_string(), ClassType::Knight)
}

#[test]
fn new_character_has_the_starting_kit() {
    let u = knight("u1");
    assert_eq!(u.user_id, "u1");
    assert_eq!(u.class, ClassType::Knight);
    assert_eq!(u.gold, 10);
    assert_eq!(u.health.max, 100);
    assert_eq!(u.health.value, 100);
    assert_eq!(u.mana.max, 20);
    assert_eq!(u.strength, 20);
    assert_eq!(u.agility, 5);
    assert_eq!(u.intelligence, 5);
    assert_eq!(u.xp, 0);
    assert_eq!(u.level, 1);
    assert!(u.bestiary.is_empty());
}

#[test]
fn level_up_below_threshold_changes_nothing() {
    let mut u = knight("u1");
    u.add_xp(149);
    assert_eq!(u.level_up(), None);
    assert_eq!(u.level, 1);
    assert_eq!(u.xp, 149);
}

#[test]
fn level_up_pays_the_threshold() {
    let mut u = knight("u1");
    u.add_xp(150);
    assert_eq!(u.level_up(), Some(2));
    assert_eq!(u.level, 2);
    assert_eq!(u.xp, 0);
}

#[test]
fn level_up_drains_several_levels() {
    let mut u = knight("u1");
    // 150 leaves 300, then 300 (the level-2 threshold) leaves 0.
    u.add_xp(450);
    assert_eq!(u.level_up(), Some(3));
    assert_eq!(u.level, 3);
    assert_eq!(u.xp, 0);
}

#[test]
fn level_up_only_grows_attributes() {
    let mut u = knight("u1");
    u.add_xp(1000);
    let before = (u.strength, u.agility, u.intelligence, u.health.max, u.mana.max);
    u.level_up().unwrap();
    assert!(u.strength >= before.0);
    assert!(u.agility >= before.1);
    assert!(u.intelligence >= before.2);
    assert!(u.health.max >= before.3);
    assert!(u.mana.max >= before.4);
    assert_eq!(u.gold, 10);
}

#[test]
fn bestiary_appends_then_increments() {
    let mut u = knight("u1");
    u.try_add_to_bestiary(AnomalyType::Orc, true);
    assert_eq!(u.bestiary.len(), 1);
    assert_eq!(u.bestiary[0].anomaly, AnomalyType::Orc);
    assert_eq!(u.bestiary[0].wins, 1);
    assert_eq!(u.bestiary[0].loses, 0);

    u.try_add_to_bestiary(AnomalyType::Orc, false);
    assert_eq!(u.bestiary.len(), 1);
    assert_eq!(u.bestiary[0].wins, 1);
    assert_eq!(u.bestiary[0].loses, 1);

    u.try_add_to_bestiary(AnomalyType::Treant, false);
    assert_eq!(u.bestiary.len(), 2);
    assert_eq!(u.bestiary[1].anomaly, AnomalyType::Treant);
    assert_eq!(u.bestiary[1].wins, 0);
    assert_eq!(u.bestiary[1].loses, 1);
}

#[test]
fn gold_floors_at_zero() {
    let mut u = knight("u1");
    u.add_gold(40);
    assert_eq!(u.gold, 50);
    u.remove_gold(200);
    assert_eq!(u.gold, 0);
}

#[test]
fn health_and_mana_delegate_to_the_pools() {
    let mut u = knight("u1");
    u.remove_health(30);
    assert_eq!(u.health.value, 70);
    u.add_health(10);
    assert_eq!(u.health.value, 80);
    u.set_health(500);
    assert_eq!(u.health.value, 100);
    u.remove_health(100);
    u.restore_health();
    assert_eq!(u.health.value, 100);

    u.remove_mana(5);
    assert_eq!(u.mana.value, 15);
    u.restore_mana();
    assert_eq!(u.mana.value, 20);
    u.add_max_mana(10);
    assert_eq!(u.mana.max, 30);
    assert_eq!(u.mana.value, 30);
}

#[test]
fn attribute_raises() {
    let mut u = knight("u1");
    u.add_strength(3);
    u.add_agility(2);
    u.add_intelligence(1);
    u.add_max_health(10);
    assert_eq!(u.strength, 23);
    assert_eq!(u.agility, 7);
    assert_eq!(u.intelligence, 6);
    assert_eq!(u.health.max, 110);
}

#[test]
fn winning_a_battle_books_everything() {
    let mut u = knight("u1");
    let leveled = u.apply_battle_rewards(
        AnomalyDrops { xp: 160, gold: 5 },
        true,
        37,
        4,
        AnomalyType::Ferak,
    );
    assert_eq!(leveled, Some(2));
    assert_eq!(u.gold, 15);
    assert_eq!(u.level, 2);
    assert_eq!(u.xp, 10);
    assert_eq!(u.health.value, 37);
    assert_eq!(u.mana.value, 4);
    assert_eq!(u.bestiary.len(), 1);
    assert_eq!(u.bestiary[0].anomaly, AnomalyType::Ferak);
    assert_eq!(u.bestiary[0].wins, 1);
    assert_eq!(u.bestiary[0].loses, 0);
}

#[test]
fn losing_a_battle_books_only_the_loss() {
    let mut u = knight("u1");
    let leveled = u.apply_battle_rewards(
        AnomalyDrops { xp: 160, gold: 5 },
        false,
        0,
        2,
        AnomalyType::Orc,
    );
    assert_eq!(leveled, None);
    assert_eq!(u.gold, 10);
    assert_eq!(u.level, 1);
    assert_eq!(u.xp, 0);
    assert_eq!(u.health.value, 0);
    assert_eq!(u.bestiary[0].loses, 1);
}

#[test]
fn rest_threshold_is_eighty_percent() {
    let mut u = knight("u1");
    assert!(!u.can_rest());
    u.set_health(81);
    assert!(!u.can_rest());
    u.set_health(80);
    assert!(u.can_rest());
    u.set_health(10);
    assert!(u.can_rest());
}

#[test]
fn cooldown_expiry_is_a_timestamp_comparison() {
    let cd = CooldownData {
        user_id: "u1".to_string(),
        cooldown_type: CooldownType::Rest,
        expires_at: 1_000,
    };
    assert!(!cd.expired(999));
    assert!(cd.expired(1_000));
    assert!(cd.expired(1_001));
    assert_eq!(cd.remaining_milis(400), 600);
    assert_eq!(cd.remaining_milis(1_400), -400);
}
