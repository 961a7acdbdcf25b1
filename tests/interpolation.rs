use gymdeck3::{Interpolator, DEFAULT_STEP_SIZE_MV};

#[test]
fn test_new_interpolator() {
    let interp = Interpolator::new(4);
    assert_eq!(interp.num_cores(), 4);
    assert_eq!(interp.step_size(), DEFAULT_STEP_SIZE_MV);
    assert!(!interp.is_transitioning());
}

#[test]
fn test_with_step_size() {
    let interp = Interpolator::with_step_size(4, 5);
    assert_eq!(interp.step_size(), 5);
}

#[test]
fn test_set_targets() {
    let mut interp = Interpolator::new(4);
    interp.set_targets(vec![-10, -20, -30, -40]);
    assert_eq!(interp.target_values(), vec![-10, -20, -30, -40]);
    assert!(interp.is_transitioning());
}

#[test]
fn test_tick_single_step() {
    let mut interp = Interpolator::new(1);
    interp.set_target(0, -5);
    let values = interp.tick();
    assert_eq!(values, vec![-1]);
    let values = interp.tick();
    assert_eq!(values, vec![-2]);
}

#[test]
fn test_tick_reaches_target() {
    let mut interp = Interpolator::new(1);
    interp.set_target(0, -3);
    interp.tick();
    interp.tick();
    let values = interp.tick();
    assert_eq!(values, vec![-3]);
    assert!(!interp.is_transitioning());
}

#[test]
fn test_tick_positive_direction() {
    let mut interp = Interpolator::new(1);
    interp.force_immediate(vec![-10]);
    interp.set_target(0, -5);
    let values = interp.tick();
    assert_eq!(values, vec![-9]);
}

#[test]
fn interpolation_test_force_immediate() {
    let mut interp = Interpolator::new(2);
    interp.set_targets(vec![-20, -30]);
    interp.force_immediate(vec![-20, -30]);
    assert_eq!(interp.current_values(), vec![-20, -30]);
    assert!(!interp.is_transitioning());
}

#[test]
fn test_force_reset_to_zero() {
    let mut interp = Interpolator::new(2);
    interp.force_immediate(vec![-20, -30]);
    interp.force_reset_to_zero();
    assert_eq!(interp.current_values(), vec![0, 0]);
    assert_eq!(interp.target_values(), vec![0, 0]);
    assert!(!interp.is_transitioning());
}

#[test]
fn test_remaining_distance() {
    let mut interp = Interpolator::new(2);
    interp.set_targets(vec![-10, -20]);
    assert_eq!(interp.remaining_distance(0), 10);
    assert_eq!(interp.remaining_distance(1), 20);
    assert_eq!(interp.total_remaining_distance(), 30);
}

#[test]
fn test_custom_step_size() {
    let mut interp = Interpolator::with_step_size(1, 5);
    interp.set_target(0, -12);
    let values = interp.tick();
    assert_eq!(values, vec![-5]);
    let values = interp.tick();
    assert_eq!(values, vec![-10]);
    let values = interp.tick();
    assert_eq!(values, vec![-12]);
}

#[test]
fn test_multiple_cores_independent() {
    let mut interp = Interpolator::new(2);
    interp.set_targets(vec![-2, -5]);
    let values = interp.tick();
    assert_eq!(values, vec![-1, -1]);
    let values = interp.tick();
    assert_eq!(values, vec![-2, -2]);
    assert!(!interp.is_core_transitioning(0));
    assert!(interp.is_core_transitioning(1));
}

#[test]
fn ticks_to_converge_is_ceil_of_distance_over_step() {
    // distance 23, step 5: ceil(23 / 5) = 5 ticks
    let mut interp = Interpolator::with_step_size(1, 5);
    interp.set_target(0, 23);
    let mut ticks = 0;
    while interp.is_transitioning() {
        let before = interp.current_value(0);
        let after = interp.tick()[0];
        let moved = after - before;
        assert!(moved == 5 || after == 23);
        ticks += 1;
    }
    assert_eq!(ticks, 5);
    assert_eq!(interp.current_value(0), 23);
}

#[test]
fn tick_lands_exactly_when_within_one_step() {
    let mut interp = Interpolator::with_step_size(1, 4);
    interp.force_immediate(vec![10]);
    interp.set_target(0, 7);
    assert_eq!(interp.tick(), vec![7]);
    assert_eq!(interp.remaining_distance(0), 0);
}

#[test]
fn extreme_values_do_not_overflow() {
    let mut interp = Interpolator::with_step_size(1, i32::MAX);
    interp.force_immediate(vec![i32::MIN]);
    interp.set_target(0, i32::MAX);
    assert_eq!(interp.tick(), vec![-1]);
    assert_eq!(interp.tick(), vec![i32::MAX - 1]);
    assert_eq!(interp.tick(), vec![i32::MAX]);
}

#[test]
fn test_no_transition_when_at_target() {
    let mut interp = Interpolator::new(1);
    interp.force_immediate(vec![-30]);
    interp.set_target(0, -30);
    assert!(!interp.is_transitioning());
    let values = interp.tick();
    assert_eq!(values[0], -30);
}

#[test]
fn test_transition_from_zero() {
    let mut interp = Interpolator::new(1);
    interp.set_target(0, -5);
    assert!(interp.is_transitioning());
    let mut values = vec![0];
    for _ in 0..5 {
        values.push(interp.tick()[0]);
    }
    assert_eq!(values, vec![0, -1, -2, -3, -4, -5]);
    assert!(!interp.is_transitioning());
}

#[test]
fn test_transition_to_zero() {
    let mut interp = Interpolator::new(1);
    interp.force_immediate(vec![-5]);
    interp.set_target(0, 0);
    let mut values = vec![-5];
    for _ in 0..5 {
        values.push(interp.tick()[0]);
    }
    assert_eq!(values, vec![-5, -4, -3, -2, -1, 0]);
}

#[test]
fn test_large_step_size() {
    let mut interp = Interpolator::with_step_size(1, 10);
    interp.force_immediate(vec![0]);
    interp.set_target(0, -25);
    let mut values = vec![0];
    while interp.is_transitioning() {
        values.push(interp.tick()[0]);
    }
    assert_eq!(values, vec![0, -10, -20, -25]);
}

#[test]
fn test_step_larger_than_distance() {
    let mut interp = Interpolator::with_step_size(1, 10);
    interp.force_immediate(vec![0]);
    interp.set_target(0, -3);
    let values = interp.tick();
    assert_eq!(values[0], -3);
    assert!(!interp.is_transitioning());
}
