use nav_lambda::verdict::BreachClass;
use nav_lambda::verdict::classify_breach;
use nav_lambda::verdict::first_breach;

#[test]
fn clear_state_is_safe() {
    let v = classify_breach(false, false, false);
    assert!(v.is_safe);
    assert_eq!(v.reason, BreachClass::Safe);
    assert_eq!(v.reason.label(), "SAFE");
}

#[test]
fn obstacle_breach_is_unsafe() {
    let v = classify_breach(true, false, false);
    assert!(!v.is_safe);
    assert_eq!(v.reason, BreachClass::ObstacleViolation);
    assert_eq!(v.reason.label(), "OBSTACLE_VIOLATION");
}

#[test]
fn low_fatigue_is_unsafe_without_obstacles() {
    let v = classify_breach(false, true, false);
    assert!(!v.is_safe);
    assert_eq!(v.reason, BreachClass::FatigueViolation);
    assert_eq!(v.reason.label(), "FATIGUE_VIOLATION");
}

#[test]
fn low_fatigue_overrides_obstacle_label() {
    let v = classify_breach(true, true, false);
    assert!(!v.is_safe);
    assert_eq!(v.reason, BreachClass::FatigueViolation);
}

#[test]
fn certainty_breach_drops_flag_but_keeps_label() {
    let v = classify_breach(false, false, true);
    assert!(!v.is_safe);
    assert_eq!(v.reason, BreachClass::Safe);
}

#[test]
fn scan_stops_at_first_breach_in_input_order() {
    assert_eq!(first_breach(&vec![false, true, true, false]), Some(1));
    assert_eq!(first_breach(&vec![true, false]), Some(0));
}

#[test]
fn scan_of_clear_list_finds_no_breach() {
    assert_eq!(first_breach(&vec![false, false, false]), None);
    assert_eq!(first_breach(&vec![]), None);
}
