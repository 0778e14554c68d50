use phoenix::common::Probability;
use phoenix::common::Stat;

#[test]
fn new_stat_is_full() {
    let s = Stat::new(60);
    assert_eq!(s.value, 60);
    assert_eq!(s.max, 60);
}

#[test]
fn set_value_clamps_below_zero() {
    let mut s = Stat::new(100);
    s.set_value(-50);
    assert_eq!(s.value, 0);
    assert!(0 <= s.value && s.value <= s.max);
}

#[test]
fn set_value_clamps_above_max() {
    let mut s = Stat::new(100);
    s.set_value(250);
    assert_eq!(s.value, 100);
    assert!(0 <= s.value && s.value <= s.max);
}

#[test]
fn set_value_keeps_in_range_value() {
    let mut s = Stat::new(100);
    s.set_value(42);
    assert_eq!(s.value, 42);
    assert_eq!(s.max, 100);
}

#[test]
fn add_and_subtract_value_clamp() {
    let mut s = Stat::new(50);
    s.subtract_value(20);
    assert_eq!(s.value, 30);
    s.subtract_value(100);
    assert_eq!(s.value, 0);
    s.add_value(10);
    assert_eq!(s.value, 10);
    s.add_value(1000);
    assert_eq!(s.value, 50);
}

#[test]
fn restore_refills_to_max() {
    let mut s = Stat::new(80);
    s.subtract_value(35);
    s.restore_value();
    assert_eq!(s.value, 80);
}

#[test]
fn grow_then_shrink_restores_fresh_stat() {
    let mut s = Stat::new(100);
    s.add_max_value(25);
    assert_eq!(s.max, 125);
    assert_eq!(s.value, 125);
    s.subtract_max_value(25);
    assert_eq!(s.max, 100);
    assert_eq!(s.value, 100);
}

#[test]
fn grow_moves_value_with_max() {
    let mut s = Stat::new(100);
    s.subtract_value(40);
    s.add_max_value(10);
    assert_eq!(s.max, 110);
    assert_eq!(s.value, 70);
}

#[test]
fn shrink_reclamps_value() {
    let mut s = Stat::new(100);
    s.subtract_max_value(30);
    assert_eq!(s.max, 70);
    assert_eq!(s.value, 70);
    s.subtract_max_value(1000);
    assert_eq!(s.max, 0);
    assert_eq!(s.value, 0);
}

#[test]
fn percentage_truncates() {
    let s = Stat { max: 100, value: 50 };
    assert_eq!(s.percentage(), 50);
    let t = Stat { max: 3, value: 2 };
    assert_eq!(t.percentage(), 66);
}

#[test]
fn percentage_of_empty_pool_is_zero() {
    let s = Stat { max: 0, value: 0 };
    assert_eq!(s.percentage(), 0);
}

#[test]
fn probability_new_clamps_to_hundred() {
    assert_eq!(Probability::new(130).value(), 100);
    assert_eq!(Probability::new(100).value(), 100);
    assert_eq!(Probability::new(55).value(), 55);
    assert_eq!(Probability::new(0).value(), 0);
}

#[test]
fn certain_and_impossible_draws() {
    let never = Probability::new(0);
    let always = Probability::new(100);
    for _ in 0..50 {
        assert!(!never.generate_random_bool());
        assert!(always.generate_random_bool());
    }
}
