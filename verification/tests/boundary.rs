use nav_lambda::boundary::CoreState;
use nav_lambda::boundary::validate_unity_alloc;
use nav_lambda::boundary::validate_uncertainty_inputs;
use nav_lambda::boundary::validate_verdict_inputs;

#[test]
fn test_rust_core_init() {
    let mut core = CoreState::new();
    assert_eq!(core.rust_core_init(), 1);
    assert_eq!(core.check_system_robustness(), 1);
}

#[test]
fn robustness_fails_before_init() {
    let core = CoreState::new();
    assert_eq!(core.check_system_robustness(), 0);
}

#[test]
fn alloc_rejects_null_pointer_regardless_of_size() {
    assert_eq!(validate_unity_alloc(true, 1024), 0);
    assert_eq!(validate_unity_alloc(true, 1), 0);
    assert_eq!(validate_unity_alloc(true, 0), 0);
}

#[test]
fn alloc_rejects_zero_size() {
    assert_eq!(validate_unity_alloc(false, 0), 0);
}

#[test]
fn alloc_rejects_sizes_over_one_gib() {
    assert_eq!(validate_unity_alloc(false, 1073741825), 0);
    assert_eq!(validate_unity_alloc(false, usize::MAX), 0);
}

#[test]
fn alloc_accepts_plausible_sizes() {
    assert_eq!(validate_unity_alloc(false, 1), 1);
    assert_eq!(validate_unity_alloc(false, 4096), 1);
    assert_eq!(validate_unity_alloc(false, 1073741824), 1);
}

#[test]
fn verdict_inputs_need_every_location() {
    assert!(validate_verdict_inputs(false, false, false));
    assert!(!validate_verdict_inputs(true, false, false));
    assert!(!validate_verdict_inputs(false, true, false));
    assert!(!validate_verdict_inputs(false, false, true));
}

#[test]
fn uncertainty_inputs_need_samples() {
    assert!(validate_uncertainty_inputs(false, 4, false));
    assert!(!validate_uncertainty_inputs(true, 4, false));
    assert!(!validate_uncertainty_inputs(false, 0, false));
    assert!(!validate_uncertainty_inputs(false, 4, true));
}
