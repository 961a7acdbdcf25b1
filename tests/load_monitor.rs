use gymdeck3::load_monitor::core_load;
use gymdeck3::{
    validate_sample_interval_ms, CoreStats, LoadMonitor, LoadMonitorError, MAX_SAMPLE_INTERVAL_MS, MIN_SAMPLE_INTERVAL_MS,
};

const SAMPLE_PROC_STAT: &str = r#"cpu  10132153 290696 3084719 46828483 16683 0 25195 0 0 0
cpu0 1393280 32966 572056 13343292 6130 0 17875 0 0 0
cpu1 1335535 34218 506820 13496949 3908 0 3556 0 0 0
cpu2 1339767 33239 502039 13496407 3742 0 1829 0 0 0
cpu3 1340270 33232 502039 13496407 3742 0 1829 0 0 0
intr 620315706 0 0 0 0 0 0 0 0 1 79 0 0 156 0 0 0
"#;

#[test]
fn test_parse_proc_stat() {
    let stats = LoadMonitor::parse_proc_stat(SAMPLE_PROC_STAT).unwrap();
    assert_eq!(stats.per_core.len(), 4);
    assert_eq!(stats.total.user, 10132153);
    assert_eq!(stats.total.nice, 290696);
    assert_eq!(stats.total.system, 3084719);
    assert_eq!(stats.total.idle, 46828483);
}

#[test]
fn test_parse_cpu_line() {
    let line = "cpu0 1393280 32966 572056 13343292 6130 0 17875 0 0 0";
    let stats = LoadMonitor::parse_cpu_line(line).unwrap();
    assert_eq!(stats.user, 1393280);
    assert_eq!(stats.nice, 32966);
    assert_eq!(stats.system, 572056);
    assert_eq!(stats.idle, 13343292);
    assert_eq!(stats.iowait, 6130);
    assert_eq!(stats.irq, 0);
    assert_eq!(stats.softirq, 17875);
    assert_eq!(stats.steal, 0);
}

#[test]
fn test_core_stats_calculations() {
    let stats = CoreStats { user: 100, nice: 10, system: 50, idle: 800, iowait: 20, irq: 5, softirq: 10, steal: 5 };
    assert_eq!(stats.total(), 1000);
    assert_eq!(stats.active(), 180);
    assert_eq!(stats.idle_time(), 820);
}

#[test]
fn test_validate_sample_interval_valid() {
    assert!(validate_sample_interval_ms(10).is_ok());
    assert!(validate_sample_interval_ms(5000).is_ok());
    assert!(validate_sample_interval_ms(100).is_ok());
    assert!(validate_sample_interval_ms(1000).is_ok());
}

#[test]
fn test_validate_sample_interval_too_small() {
    assert!(validate_sample_interval_ms(9).is_err());
    assert!(validate_sample_interval_ms(0).is_err());
    assert!(validate_sample_interval_ms(1).is_err());
}

#[test]
fn test_validate_sample_interval_too_large() {
    assert!(validate_sample_interval_ms(5001).is_err());
    assert!(validate_sample_interval_ms(10000).is_err());
    assert!(validate_sample_interval_ms(u64::MAX).is_err());
}

#[test]
fn test_load_monitor_rejects_invalid_interval() {
    assert!(LoadMonitor::with_path(5, "/proc/stat".to_string()).is_err());
    assert!(LoadMonitor::with_path(6000, "/proc/stat".to_string()).is_err());
}

#[test]
fn test_load_monitor_accepts_valid_interval() {
    let result = LoadMonitor::with_path(100, "/nonexistent".to_string());
    assert!(result.is_ok());
}

#[test]
fn missing_total_line_is_a_parse_error() {
    let text = "cpu0 1 2 3 4\ncpu1 1 2 3 4\n";
    assert!(matches!(LoadMonitor::parse_proc_stat(text), Err(LoadMonitorError::ParseError(_))));
    assert!(matches!(LoadMonitor::parse_proc_stat(""), Err(LoadMonitorError::ParseError(_))));
}

#[test]
fn invalid_cpu_line_is_a_parse_error() {
    assert!(LoadMonitor::parse_proc_stat("cpu  1 2 3\n").is_err());
    assert!(LoadMonitor::parse_proc_stat("cpu  1 2 x 4\n").is_err());
    assert!(LoadMonitor::parse_cpu_line("cpu0").is_err());
}

#[test]
fn optional_fields_default_to_zero() {
    let stats = LoadMonitor::parse_cpu_line("cpu3\t5  6 7 8 x").unwrap();
    assert_eq!((stats.user, stats.nice, stats.system, stats.idle), (5, 6, 7, 8));
    assert_eq!((stats.iowait, stats.irq, stats.softirq, stats.steal), (0, 0, 0, 0));
}

#[test]
fn crlf_lines_and_last_line_without_newline() {
    let stats = LoadMonitor::parse_proc_stat("cpu  1 2 3 4\r\ncpu0 5 6 7 8").unwrap();
    assert_eq!(stats.total.idle, 4);
    assert_eq!(stats.per_core.len(), 1);
    assert_eq!(stats.per_core[0].idle, 8);
}

#[test]
fn core_load_in_hundredths() {
    let prev = CoreStats { user: 100, nice: 0, system: 0, idle: 900, iowait: 0, irq: 0, softirq: 0, steal: 0 };
    let cur = CoreStats { user: 150, nice: 0, system: 0, idle: 950, iowait: 0, irq: 0, softirq: 0, steal: 0 };
    assert_eq!(core_load(&prev, &cur), 5000);
    assert_eq!(core_load(&prev, &prev), 0);
}

#[test]
fn error_messages() {
    assert_eq!(LoadMonitorError::NoPreviousSample.message(), "No previous sample available");
    assert_eq!(LoadMonitorError::ParseError("x".to_string()).message(), "Parse error: x");
}

#[test]
fn test_exact_minimum_boundary() {
    assert!(validate_sample_interval_ms(MIN_SAMPLE_INTERVAL_MS).is_ok());
    assert!(validate_sample_interval_ms(MIN_SAMPLE_INTERVAL_MS - 1).is_err());
}

#[test]
fn test_exact_maximum_boundary() {
    assert!(validate_sample_interval_ms(MAX_SAMPLE_INTERVAL_MS).is_ok());
    assert!(validate_sample_interval_ms(MAX_SAMPLE_INTERVAL_MS + 1).is_err());
}

#[test]
fn test_constants_match_requirements() {
    assert_eq!(MIN_SAMPLE_INTERVAL_MS, 10);
    assert_eq!(MAX_SAMPLE_INTERVAL_MS, 5000);
}

fn idle_busy(user: u64, idle: u64) -> CoreStats {
    CoreStats { user, nice: 0, system: 0, idle, iowait: 0, irq: 0, softirq: 0, steal: 0 }
}

#[test]
fn test_calculate_core_load() {
    let load = LoadMonitor::calculate_core_load(&idle_busy(100, 900), &idle_busy(200, 1800));
    assert_eq!(load, 1000);
}

#[test]
fn test_calculate_load_average() {
    let text_prev = "cpu  0 0 0 200\ncpu0 0 0 0 100\ncpu1 0 0 0 100\n";
    let text_cur = "cpu  80 0 0 320\ncpu0 50 0 0 150\ncpu1 30 0 0 170\n";
    let prev = LoadMonitor::parse_proc_stat(text_prev).unwrap();
    let current = LoadMonitor::parse_proc_stat(text_cur).unwrap();
    let sample = LoadMonitor::calculate_load(&prev, &current, 7);
    assert_eq!(sample.per_core, vec![5000, 3000]);
    assert_eq!(sample.average, 4000);
    assert_eq!(sample.timestamp_ms, 7);
}

#[test]
fn test_load_clamped_to_valid_range() {
    let load = LoadMonitor::calculate_core_load(&idle_busy(1000, 0), &idle_busy(2000, 0));
    assert!(load <= 10_000);
    assert_eq!(load, 10_000);
}

#[test]
fn test_zero_delta_returns_zero_load() {
    let stats = idle_busy(100, 900);
    assert_eq!(LoadMonitor::calculate_core_load(&stats, &stats), 0);
}

#[test]
fn first_sample_has_no_previous() {
    let mut monitor = LoadMonitor::with_path(100, "/proc/stat".to_string()).unwrap();
    let a = LoadMonitor::parse_proc_stat("cpu  0 0 0 100\n").unwrap();
    let b = LoadMonitor::parse_proc_stat("cpu  25 0 0 175\n").unwrap();
    assert!(matches!(monitor.sample_from(a, 0), Err(LoadMonitorError::NoPreviousSample)));
    let s = monitor.sample_from(b, 100).unwrap();
    assert!(s.per_core.is_empty());
    assert_eq!(s.average, 2500);
}
