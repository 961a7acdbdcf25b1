use gymdeck3::{validate_hysteresis_margin, HysteresisController, MAX_HYSTERESIS_PERCENT, MIN_HYSTERESIS_PERCENT};

#[test]
fn first_sample_sets_baseline_and_passes_through() {
    let mut h = HysteresisController::new(500, 2);
    assert_eq!(h.last_stable_load(0), None);
    assert_eq!(h.process(0, 5000, -30), -30);
    assert_eq!(h.last_stable_load(0), Some(5000));
    assert!(!h.is_in_dead_band(0));
}

#[test]
fn loads_within_margin_hold_the_output() {
    let mut h = HysteresisController::new(500, 1);
    h.process(0, 5000, -30);
    for load in [4500, 4800, 5000, 5300, 5500] {
        assert_eq!(h.process(0, load, -10), -30);
        assert!(h.is_in_dead_band(0));
        assert_eq!(h.last_stable_load(0), Some(5000));
    }
    assert_eq!(h.process(0, 5501, -10), -10);
    assert_eq!(h.last_stable_load(0), Some(5501));
    assert!(!h.is_in_dead_band(0));
    assert_eq!(h.process(0, 4999, -25), -25);
}

#[test]
fn cores_are_independent() {
    let mut h = HysteresisController::new(100, 2);
    h.process(1, 2000, -22);
    let before = (h.last_output(1), h.last_stable_load(1), h.is_in_dead_band(1));
    h.process(0, 9000, -35);
    h.process(0, 100, -20);
    h.reset_core(0);
    assert_eq!((h.last_output(1), h.last_stable_load(1), h.is_in_dead_band(1)), before);
}

#[test]
fn reset_clears_all_cores() {
    let mut h = HysteresisController::new(2000, 3);
    h.process(2, 100, -5);
    h.reset();
    assert_eq!(h.num_cores(), 3);
    assert_eq!(h.last_output(2), 0);
    assert_eq!(h.last_stable_load(2), None);
    assert_eq!(h.margin_percent(), 2000);
}

#[test]
fn margin_validation() {
    assert_eq!(validate_hysteresis_margin(100), Ok(100));
    assert_eq!(validate_hysteresis_margin(2000), Ok(2000));
    assert!(validate_hysteresis_margin(99).is_err());
    assert!(validate_hysteresis_margin(2001).is_err());
}

// Loads and margins below are in hundredths of a percent (5.0 % is 500).

#[test]
fn test_new_controller() {
    let controller = HysteresisController::new(500, 4);
    assert_eq!(controller.margin_percent(), 500);
    assert_eq!(controller.num_cores(), 4);
}

#[test]
fn test_initial_state() {
    let controller = HysteresisController::new(500, 4);
    for i in 0..4 {
        assert!(!controller.is_in_dead_band(i));
        assert_eq!(controller.last_stable_load(i), None);
        assert_eq!(controller.last_output(i), 0);
    }
}

#[test]
fn test_process_outside_deadband() {
    let mut controller = HysteresisController::new(500, 1);
    let result = controller.process(0, 3000, -25);
    assert_eq!(result, -25);
    assert_eq!(controller.last_stable_load(0), Some(3000));
    assert!(!controller.is_in_dead_band(0));
}

#[test]
fn test_process_inside_deadband() {
    let mut controller = HysteresisController::new(500, 1);
    assert_eq!(controller.process(0, 5000, -30), -30);
    assert_eq!(controller.last_stable_load(0), Some(5000));
    assert_eq!(controller.process(0, 5200, -28), -30);
    assert!(controller.is_in_dead_band(0));
    assert_eq!(controller.process(0, 4800, -32), -30);
    assert!(controller.is_in_dead_band(0));
}

#[test]
fn test_process_exits_deadband() {
    let mut controller = HysteresisController::new(500, 1);
    controller.process(0, 5000, -30);
    assert_eq!(controller.process(0, 6000, -20), -20);
    assert!(!controller.is_in_dead_band(0));
    assert_eq!(controller.last_stable_load(0), Some(6000));
}

#[test]
fn hysteresis_test_reset() {
    let mut controller = HysteresisController::new(500, 2);
    controller.process(0, 3000, -25);
    controller.process(1, 7000, -15);
    controller.reset();
    for i in 0..2 {
        assert_eq!(controller.last_stable_load(i), None);
        assert_eq!(controller.last_output(i), 0);
        assert!(!controller.is_in_dead_band(i));
    }
}

#[test]
fn test_reset_single_core() {
    let mut controller = HysteresisController::new(500, 2);
    controller.process(0, 3000, -25);
    controller.process(1, 7000, -15);
    controller.reset_core(0);
    assert_eq!(controller.last_stable_load(0), None);
    assert_eq!(controller.last_output(0), 0);
    assert_eq!(controller.last_stable_load(1), Some(7000));
    assert_eq!(controller.last_output(1), -15);
}

#[test]
fn test_validate_hysteresis_margin() {
    assert!(validate_hysteresis_margin(100).is_ok());
    assert!(validate_hysteresis_margin(1000).is_ok());
    assert!(validate_hysteresis_margin(2000).is_ok());
    assert!(validate_hysteresis_margin(50).is_err());
    assert!(validate_hysteresis_margin(2100).is_err());
}

#[test]
fn test_boundary_values() {
    let mut controller = HysteresisController::new(500, 1);
    assert_eq!(controller.process(0, 5000, -30), -30);
    assert_eq!(controller.process(0, 5500, -25), -30);
    assert!(controller.is_in_dead_band(0));
    assert_eq!(controller.process(0, 5501, -24), -24);
    assert!(!controller.is_in_dead_band(0));
}

#[test]
fn test_deadband_at_load_extremes() {
    let mut controller = HysteresisController::new(500, 1);
    controller.process(0, 0, -30);
    assert_eq!(controller.process(0, 300, -25), -30);
    controller.reset();
    controller.process(0, 10_000, -20);
    assert_eq!(controller.process(0, 9_700, -25), -20);
}

#[test]
fn test_deadband_with_minimum_margin() {
    let mut controller = HysteresisController::new(MIN_HYSTERESIS_PERCENT, 1);
    controller.process(0, 5_000, -30);
    assert_eq!(controller.process(0, 5_050, -25), -30);
    assert_eq!(controller.process(0, 5_150, -25), -25);
}

#[test]
fn test_deadband_with_maximum_margin() {
    let mut controller = HysteresisController::new(MAX_HYSTERESIS_PERCENT, 1);
    controller.process(0, 5_000, -30);
    assert_eq!(controller.process(0, 6_500, -25), -30);
    assert_eq!(controller.process(0, 7_100, -25), -25);
}

#[test]
fn test_deadband_resets_after_exit() {
    let mut controller = HysteresisController::new(500, 1);
    controller.process(0, 5_000, -30);
    controller.process(0, 6_000, -25);
    assert_eq!(controller.process(0, 5_800, -20), -25);
}

#[test]
fn test_four_cores_independence() {
    let mut controller = HysteresisController::new(500, 4);
    controller.process(0, 2_000, -20);
    controller.process(1, 4_000, -25);
    controller.process(2, 6_000, -30);
    controller.process(3, 8_000, -35);
    assert_eq!(controller.last_output(0), -20);
    assert_eq!(controller.last_output(1), -25);
    assert_eq!(controller.last_output(2), -30);
    assert_eq!(controller.last_output(3), -35);
    controller.process(2, 9_000, -15);
    assert_eq!(controller.last_output(0), -20);
    assert_eq!(controller.last_output(1), -25);
    assert_eq!(controller.last_output(2), -15);
    assert_eq!(controller.last_output(3), -35);
    assert_eq!(controller.last_stable_load(0), Some(2_000));
    assert_eq!(controller.last_stable_load(1), Some(4_000));
    assert_eq!(controller.last_stable_load(2), Some(9_000));
    assert_eq!(controller.last_stable_load(3), Some(8_000));
}

#[test]
fn test_interleaved_core_updates() {
    let mut controller = HysteresisController::new(500, 2);
    controller.process(0, 5_000, -30);
    controller.process(1, 5_000, -25);
    controller.process(0, 5_200, -28);
    assert_eq!(controller.last_output(0), -30);
    controller.process(1, 4_800, -27);
    assert_eq!(controller.last_output(1), -25);
    controller.process(0, 6_000, -20);
    assert_eq!(controller.last_output(0), -20);
    assert_eq!(controller.last_output(1), -25);
    controller.process(1, 5_300, -22);
    assert_eq!(controller.last_output(1), -25);
}
