use phoenix::battle::ActionRolls;
use phoenix::battle::ActionType;
use phoenix::battle::Battle;
use phoenix::battle::BattleEffect;
use phoenix::common::Stat;
use phoenix::controller::apply_player_event;
use phoenix::controller::battle_result;
use phoenix::controller::controller_step;
use phoenix::controller::BattleDirective;
use phoenix::errors::GameError;
use phoenix::fighter::Fighter;

fn fighter(name: &str, strength: i32, health: i32, agility: i32, intelligence: i32) -> Fighter {
    Fighter {
        name: name.to_string(),
        user: Some(1),
        anomaly: None,
        target_index: None,
        health: Stat::new(health),
        mana: Stat::new(10),
        strength,
        agility,
        intelligence,
    }
}

/// Rolls that dodge nothing, crit nothing, and scale damage by exactly 1.0.
fn plain_rolls() -> ActionRolls {
    ActionRolls { dodge_roll: 99, critical_roll: 99, multiplier_pct: 100, crit_bonus_pct: 75 }
}

#[test]
fn battle_needs_two_fighters() {
    let lone = vec![fighter("A", 20, 100, 5, 5)];
    match Battle::new(lone) {
        Err(GameError::InsufficientFighters) => {}
        _ => panic!("a single fighter must be refused"),
    }
    match Battle::new(Vec::new()) {
        Err(GameError::InsufficientFighters) => {}
        _ => panic!("no fighters must be refused"),
    }
}

#[test]
fn two_fighters_target_each_other() {
    let fighters = vec![fighter("A", 20, 100, 5, 5), fighter("B", 15, 100, 5, 5)];
    let battle = Battle::new(fighters).unwrap();
    assert_eq!(battle.fighters[0].target_index, Some(1));
    assert_eq!(battle.fighters[1].target_index, Some(0));
    assert_eq!(battle.current_fighter, 0);
    assert!(battle.winner.is_none());
    assert!(battle.rounds.is_empty());
}

#[test]
fn three_fighters_form_a_ring() {
    let fighters = vec![
        fighter("A", 20, 100, 5, 5),
        fighter("B", 15, 100, 5, 5),
        fighter("C", 10, 100, 5, 5),
    ];
    let battle = Battle::new(fighters).unwrap();
    assert_eq!(battle.fighters[0].target_index, Some(1));
    assert_eq!(battle.fighters[1].target_index, Some(2));
    assert_eq!(battle.fighters[2].target_index, Some(0));
}

#[test]
fn forced_dodge_negates_all_damage() {
    // Both fighters have agility 5, so the dodge chance is 7%; a roll of 0
    // falls below it and the target dodges.
    let fighters = vec![fighter("A", 20, 100, 5, 5), fighter("B", 15, 100, 5, 5)];
    let mut battle = Battle::new(fighters).unwrap();
    let rolls = ActionRolls { dodge_roll: 0, critical_roll: 99, multiplier_pct: 100, crit_bonus_pct: 75 };
    let round = battle.run_action_with(ActionType::Attack, rolls);
    assert!(round.dodged);
    assert_eq!(battle.fighters[1].health.value, 100);
    assert_eq!(round.action.effects, vec![BattleEffect::Damage(0)]);
}

#[test]
fn critical_hit_adds_the_bonus() {
    // Equal intelligence gives a 7% critical chance; a roll of 0 crits.
    let fighters = vec![fighter("A", 20, 100, 5, 5), fighter("B", 15, 100, 5, 5)];
    let mut battle = Battle::new(fighters).unwrap();
    let rolls = ActionRolls { dodge_roll: 99, critical_roll: 0, multiplier_pct: 100, crit_bonus_pct: 75 };
    let round = battle.run_action_with(ActionType::Attack, rolls);
    assert!(round.critical);
    assert!(!round.dodged);
    // Damage 20 * 1.75 = 35 >= the plain 20.
    assert_eq!(battle.fighters[1].health.value, 100 - 35);
}

#[test]
fn scripted_two_fighter_battle_runs_to_the_end() {
    // Strength 20 versus 15, both at 100 health, agility and intelligence 5,
    // no dodges, no criticals, multiplier 1.0: A deals exactly 20 each of
    // A's turns, B deals 15, turns alternate, and A wins when B reaches 0.
    let fighters = vec![fighter("A", 20, 100, 5, 5), fighter("B", 15, 100, 5, 5)];
    let mut battle = Battle::new(fighters).unwrap();
    let mut turns = 0;
    while battle.winner.is_none() {
        assert_eq!(battle.current_fighter, turns % 2);
        let before_target = if turns % 2 == 0 {
            battle.fighters[1].health.value
        } else {
            battle.fighters[0].health.value
        };
        let round = battle.run_action_with(ActionType::Attack, plain_rolls());
        let expected = if turns % 2 == 0 { 20 } else { 15 };
        assert_eq!(round.action.effects, vec![BattleEffect::Damage(expected)]);
        let after_target = if turns % 2 == 0 {
            battle.fighters[1].health.value
        } else {
            battle.fighters[0].health.value
        };
        assert_eq!(after_target, (before_target - expected).max(0));
        turns += 1;
        assert!(turns <= 200, "a scripted battle must resolve");
    }
    // B takes 20 damage on turns 1, 3, 5, 7 and 9: dead after 9 turns.
    assert_eq!(turns, 9);
    let winner = battle.winner.as_ref().unwrap();
    assert_eq!(winner.name, "A");
    assert_eq!(winner.health.value, 100 - 4 * 15);
    assert_eq!(battle.fighters[1].health.value, 0);
    assert_eq!(battle.rounds.len(), 9);
}

#[test]
fn random_battle_terminates_with_a_winner() {
    let fighters = vec![fighter("A", 20, 60, 5, 5), fighter("B", 15, 60, 5, 5)];
    let mut battle = Battle::new(fighters).unwrap();
    let mut turns = 0;
    while battle.winner.is_none() {
        battle.run_action(ActionType::Attack);
        turns += 1;
        assert!(turns <= 100_000, "battle must resolve");
    }
    let alive: Vec<&Fighter> =
        battle.fighters.iter().filter(|f| f.health.value > 0).collect();
    assert_eq!(alive.len(), 1);
}

#[test]
fn controller_walks_the_battle() {
    let mut anomaly_fighter = fighter("Orc", 1, 5, 0, 0);
    anomaly_fighter.user = None;
    anomaly_fighter.anomaly =
        phoenix::anomalies::get_anomaly_from_type(phoenix::anomalies::AnomalyType::Orc);
    let fighters = vec![fighter("A", 20, 100, 5, 5), anomaly_fighter];
    let mut battle = Battle::new(fighters).unwrap();

    // The player acts first.
    assert_eq!(controller_step(&battle), BattleDirective::AwaitPlayerAction(0));
    assert!(battle_result(&battle).is_none());

    // A timeout aborts without touching the battle.
    let timeout = apply_player_event(&mut battle, None);
    assert_eq!(timeout.unwrap_err(), GameError::ActionTimeout);
    assert_eq!(battle.rounds.len(), 0);

    // The player attacks; with strength 20 the 5-health anomaly falls at
    // the latest after a few turns, whatever the rolls.
    let mut steps = 0;
    loop {
        match controller_step(&battle) {
            BattleDirective::Finished => break,
            BattleDirective::AwaitPlayerAction(i) => {
                assert_eq!(i, battle.current_fighter);
                apply_player_event(&mut battle, Some(ActionType::Attack)).unwrap();
            }
            BattleDirective::AnomalyAction(action) => {
                assert_eq!(action, ActionType::Attack);
                battle.run_action(action);
            }
        }
        steps += 1;
        assert!(steps <= 100_000, "the controller loop must finish");
    }
    let result = battle_result(&battle).unwrap();
    assert_eq!(result.all_fighters.len(), 2);
    assert_eq!(
        result.defeated_fighters.len(),
        result.all_fighters.iter().filter(|f| f.health.value == 0).count()
    );
    assert!(result.winner.health.value > 0);
}

#[test]
fn action_names_round_trip() {
    assert_eq!(ActionType::from_name("Atacar"), Some(ActionType::Attack));
    assert_eq!(ActionType::from_name("Fugir"), None);
    assert_eq!(ActionType::Attack.name(), "Atacar");
    assert_eq!(ActionType::Attack.emoji(), "👊");
}
