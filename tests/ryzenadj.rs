use std::path::PathBuf;

use gymdeck3::{
    simulate_failure_sequence, ApplyResult, RyzenadjError, RyzenadjExecutor, MAX_CONSECUTIVE_FAILURES,
};

#[test]
fn test_executor_new() {
    let executor = RyzenadjExecutor::new("/usr/bin/ryzenadj");
    assert_eq!(executor.binary_path(), &PathBuf::from("/usr/bin/ryzenadj"));
    assert_eq!(executor.consecutive_failures(), 0);
    assert_eq!(executor.max_failures(), MAX_CONSECUTIVE_FAILURES);
}

#[test]
fn test_executor_with_max_failures() {
    let executor = RyzenadjExecutor::with_max_failures("/usr/bin/ryzenadj", 3);
    assert_eq!(executor.max_failures(), 3);
}

#[test]
fn test_build_args_single_core() {
    let executor = RyzenadjExecutor::new("ryzenadj");
    let args = executor.build_args(&[-25]);
    assert_eq!(args, vec!["--set-coper-0", "25"]);
}

#[test]
fn test_build_args_multiple_cores() {
    let executor = RyzenadjExecutor::new("ryzenadj");
    let args = executor.build_args(&[-20, -25, -30, -35]);
    assert_eq!(
        args,
        vec!["--set-coper-0", "20", "--set-coper-1", "25", "--set-coper-2", "30", "--set-coper-3", "35"]
    );
}

#[test]
fn test_build_args_zero_values() {
    let executor = RyzenadjExecutor::new("ryzenadj");
    let args = executor.build_args(&[0, 0, 0, 0]);
    assert_eq!(
        args,
        vec!["--set-coper-0", "0", "--set-coper-1", "0", "--set-coper-2", "0", "--set-coper-3", "0"]
    );
}

#[test]
fn test_record_failure_under_limit() {
    let mut executor = RyzenadjExecutor::with_max_failures("ryzenadj", 5);
    for i in 1..5 {
        let result = executor.record_failure();
        assert!(result.is_ok());
        assert_eq!(result.unwrap(), i);
    }
}

#[test]
fn test_record_failure_at_limit() {
    let mut executor = RyzenadjExecutor::with_max_failures("ryzenadj", 5);
    for _ in 0..4 {
        let _ = executor.record_failure();
    }
    let result = executor.record_failure();
    assert!(result.is_err());
    match result {
        Err(RyzenadjError::MaxFailuresReached(count)) => assert_eq!(count, 5),
        _ => panic!("Expected MaxFailuresReached error"),
    }
}

#[test]
fn test_record_success_resets_counter() {
    let mut executor = RyzenadjExecutor::with_max_failures("ryzenadj", 5);
    let _ = executor.record_failure();
    let _ = executor.record_failure();
    assert_eq!(executor.consecutive_failures(), 2);
    executor.record_success();
    assert_eq!(executor.consecutive_failures(), 0);
}

#[test]
fn test_simulate_failure_sequence_all_success() {
    let results = vec![true, true, true, true, true];
    assert_eq!(simulate_failure_sequence(&results, 5), Ok(0));
}

#[test]
fn test_simulate_failure_sequence_mixed() {
    let results = vec![false, false, true, false, false];
    assert_eq!(simulate_failure_sequence(&results, 5), Ok(2));
}

#[test]
fn test_simulate_failure_sequence_hits_limit() {
    let results = vec![true, false, false, false, false, false];
    assert_eq!(simulate_failure_sequence(&results, 5), Err(5));
}

#[test]
fn test_simulate_failure_sequence_reset_before_limit() {
    let results = vec![false, false, false, false, true, false, false, false, false];
    assert_eq!(simulate_failure_sequence(&results, 5), Ok(4));
}

#[test]
fn ryzenadj_test_error_display() {
    let err = RyzenadjError::BinaryNotFound("/path/to/ryzenadj".to_string());
    assert!(err.message().contains("/path/to/ryzenadj"));
    let err = RyzenadjError::MaxFailuresReached(5);
    assert!(err.message().contains("5"));
    let err = RyzenadjError::NonZeroExit { code: 1, stderr: "error message".to_string() };
    assert!(err.message().contains("1"));
    assert!(err.message().contains("error message"));
}

#[test]
fn error_messages_are_exact() {
    assert_eq!(RyzenadjError::MaxFailuresReached(12).message(), "ryzenadj failed 12 consecutive times");
    let err = RyzenadjError::NonZeroExit { code: -3, stderr: "bad".to_string() };
    assert_eq!(err.message(), "ryzenadj exited with code -3: bad");
    assert_eq!(RyzenadjError::ExecutionFailed("x".to_string()).message(), "ryzenadj execution failed: x");
}

#[test]
fn four_failures_then_success_resets_and_fifth_failure_is_fatal() {
    let mut ex = RyzenadjExecutor::new("ryzenadj");
    let fail = || Err(RyzenadjError::NonZeroExit { code: 1, stderr: String::new() });
    for n in 1..=4 {
        assert_eq!(ex.record_outcome(fail()), Ok(ApplyResult { success: false, consecutive_failures: n }));
    }
    assert_eq!(ex.record_outcome(Ok(())), Ok(ApplyResult { success: true, consecutive_failures: 0 }));
    assert_eq!(ex.consecutive_failures(), 0);
    for n in 1..=4 {
        assert!(ex.record_outcome(fail()).is_ok());
        assert_eq!(ex.consecutive_failures(), n);
    }
    assert_eq!(ex.record_outcome(fail()), Err(RyzenadjError::MaxFailuresReached(5)));
}

#[test]
fn missing_binary_is_fatal_and_not_counted() {
    let mut ex = RyzenadjExecutor::new("ryzenadj");
    let r = ex.record_outcome(Err(RyzenadjError::BinaryNotFound("ryzenadj".to_string())));
    assert_eq!(r, Err(RyzenadjError::BinaryNotFound("ryzenadj".to_string())));
    assert_eq!(ex.consecutive_failures(), 0);
}

#[test]
fn four_failures_and_a_success_give_zero() {
    assert_eq!(simulate_failure_sequence(&[false, false, false, false, true], 5), Ok(0));
    assert_eq!(simulate_failure_sequence(&[false, false, false, false], 5), Ok(4));
    assert_eq!(simulate_failure_sequence(&[false, false, false, false, false, false], 5), Err(5));
}

#[test]
fn test_default_max_failures_is_five() {
    assert_eq!(MAX_CONSECUTIVE_FAILURES, 5);
}

#[test]
fn test_exactly_five_failures_exits() {
    assert_eq!(simulate_failure_sequence(&[false, false, false, false, false], 5), Err(5));
}

#[test]
fn test_four_failures_no_exit() {
    assert_eq!(simulate_failure_sequence(&[false, false, false, false], 5), Ok(4));
}

#[test]
fn test_success_after_four_failures_resets() {
    assert_eq!(simulate_failure_sequence(&[false, false, false, false, true], 5), Ok(0));
}

#[test]
fn test_five_failures_after_success_exits() {
    assert_eq!(simulate_failure_sequence(&[true, false, false, false, false, false], 5), Err(5));
}

#[test]
fn test_alternating_success_failure_no_exit() {
    let results = vec![false, true, false, true, false, true, false, true];
    assert_eq!(simulate_failure_sequence(&results, 5), Ok(0));
}

#[test]
fn test_alternating_ending_with_failure() {
    let results = vec![true, false, true, false, true, false];
    assert_eq!(simulate_failure_sequence(&results, 5), Ok(1));
}

#[test]
fn test_max_failures_of_one() {
    assert_eq!(simulate_failure_sequence(&[false], 1), Err(1));
}

#[test]
fn test_success_before_single_failure_limit() {
    assert_eq!(simulate_failure_sequence(&[true, false], 1), Err(1));
}

#[test]
fn test_long_sequence_with_reset() {
    let results = vec![
        false, false, false, false, true, false, false, false, false, true, false, false, false, false, false,
    ];
    assert_eq!(simulate_failure_sequence(&results, 5), Err(5));
}

#[test]
fn test_long_sequence_without_exit() {
    let results = vec![false, false, false, false, true, false, false, false, false, true, false, false, false, false];
    assert_eq!(simulate_failure_sequence(&results, 5), Ok(4));
}
