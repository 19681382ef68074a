use container_demo::clock::ServiceClock;
use container_demo::crash::{crash_plan, CRASH_DELAY_MS};
use container_demo::decimal::{decimal_text, parse_unsigned, port_from_setting, DEFAULT_PORT};
use container_demo::environment::{exposed_environment, is_exposed_key, same_text, starts_with_text};
use container_demo::fib::{fib, fib_input, fib_query, fib_request, FibOutcome, MAX_FIB_N};
use container_demo::health::{health_status, timestamp_text, Probe, WallTime};
use container_demo::info::{bytes_to_mb, ContainerInfo, SystemSnapshot};
use container_demo::landing::{host_or_unknown, render_landing_page};
use container_demo::metrics::{render_metrics, MetricsSnapshot};

fn pairs(v: &[(&str, &str)]) -> Vec<(String, String)> {
    v.iter().map(|(k, x)| (k.to_string(), x.to_string())).collect()
}

#[test]
fn fib_of_zero_is_zero() {
    assert_eq!(fib_request(Some(0)), FibOutcome { n: 0, result: 0 });
}

#[test]
fn fib_of_one_is_one() {
    assert_eq!(fib_request(Some(1)), FibOutcome { n: 1, result: 1 });
}

#[test]
fn fib_of_ten_is_fifty_five() {
    assert_eq!(fib_request(Some(10)), FibOutcome { n: 10, result: 55 });
}

#[test]
fn fib_follows_the_sequence() {
    let expected: [u64; 13] = [0, 1, 1, 2, 3, 5, 8, 13, 21, 34, 55, 89, 144];
    for (n, want) in expected.iter().enumerate() {
        assert_eq!(fib(n as u64), *want);
    }
    assert_eq!(fib(25), 75025);
}

#[test]
fn fib_defaults_to_ten() {
    assert_eq!(fib_input(None), 10);
    assert_eq!(fib_request(None), FibOutcome { n: 10, result: 55 });
}

#[test]
fn fib_input_is_clamped() {
    assert_eq!(fib_input(Some(46)), MAX_FIB_N);
    assert_eq!(fib_input(Some(1000)), 45);
    assert_eq!(fib_input(Some(u64::MAX)), 45);
    assert_eq!(fib_input(Some(45)), 45);
    assert_eq!(fib_input(Some(44)), 44);
}

#[test]
fn uptime_is_zero_at_start() {
    let clock = ServiceClock::start(5_000);
    assert_eq!(clock.uptime_secs(5_000), 0);
    assert_eq!(clock.uptime_secs(5_999), 0);
    assert_eq!(clock.uptime_secs(4_000), 0);
}

#[test]
fn uptime_counts_whole_seconds() {
    let clock = ServiceClock::start(5_000);
    assert_eq!(clock.uptime_secs(6_000), 1);
    assert_eq!(clock.uptime_secs(65_432), 60);
}

#[test]
fn uptime_never_decreases() {
    let clock = ServiceClock::start(123);
    let mut last = 0;
    for now in (0..20_000u64).step_by(77) {
        let up = clock.uptime_secs(now);
        assert!(up >= last);
        last = up;
    }
}

#[test]
fn liveness_answer() {
    let clock = ServiceClock::start(0);
    let r = health_status(Probe::Liveness, &clock, 3_500, WallTime { secs: 1_700_000_000, nanos: 0 });
    assert_eq!(r.status, "ok");
    assert_eq!(r.uptime_seconds, 3);
    assert_eq!(r.timestamp, "2023-11-14T22:13:20+00:00");
}

#[test]
fn readiness_answer() {
    let clock = ServiceClock::start(1_000);
    let r = health_status(Probe::Readiness, &clock, 1_000, WallTime { secs: 0, nanos: 0 });
    assert_eq!(r.status, "ready");
    assert_eq!(r.uptime_seconds, 0);
    assert_eq!(r.timestamp, "1970-01-01T00:00:00+00:00");
}

#[test]
fn repeated_probes_differ_only_in_timestamp() {
    let clock = ServiceClock::start(0);
    let a = health_status(Probe::Liveness, &clock, 10_000, WallTime { secs: 1_700_000_000, nanos: 0 });
    let b = health_status(Probe::Liveness, &clock, 10_000, WallTime { secs: 1_700_000_001, nanos: 0 });
    assert_eq!(a.status, b.status);
    assert_eq!(a.uptime_seconds, b.uptime_seconds);
    assert_ne!(a.timestamp, b.timestamp);
    assert_eq!(clock, ServiceClock::start(0));
}

#[test]
fn timestamp_with_fraction() {
    let t = timestamp_text(WallTime { secs: 0, nanos: 500_000_000 });
    assert_eq!(t, "1970-01-01T00:00:00.500+00:00");
}

#[test]
fn timestamp_out_of_range_is_empty() {
    assert_eq!(timestamp_text(WallTime { secs: i64::MAX, nanos: 0 }), "");
}

#[test]
fn whitelist_keys() {
    assert!(is_exposed_key("KUBERNETES_SERVICE_HOST"));
    assert!(is_exposed_key("OPENSHIFT_BUILD_NAME"));
    assert!(is_exposed_key("POD_NAME"));
    assert!(is_exposed_key("HOSTNAME"));
    assert!(is_exposed_key("HOME"));
    assert!(is_exposed_key("PATH"));
    assert!(is_exposed_key("RUST_LOG"));
    assert!(is_exposed_key("APP_VERSION"));
    assert!(!is_exposed_key("POD"));
    assert!(!is_exposed_key("HOMEDIR"));
    assert!(!is_exposed_key("DATABASE_PASSWORD"));
    assert!(!is_exposed_key("kubernetes_service_host"));
    assert!(!is_exposed_key(""));
}

#[test]
fn secret_variable_is_not_exposed() {
    let vars = pairs(&[
        ("SECRET_TOKEN", "SECRET-REDACTED"),
        ("KUBERNETES_SERVICE_HOST", "10.0.0.1"),
        ("AWS_SECRET_ACCESS_KEY", "x"),
        ("PATH", "/usr/bin"),
        ("POD_NAME", "demo-1"),
    ]);
    let shown = exposed_environment(&vars);
    assert_eq!(
        shown,
        pairs(&[("KUBERNETES_SERVICE_HOST", "10.0.0.1"), ("PATH", "/usr/bin"), ("POD_NAME", "demo-1")])
    );
    assert!(shown.iter().all(|(k, _)| k != "SECRET_TOKEN" && k != "AWS_SECRET_ACCESS_KEY"));
}

#[test]
fn empty_environment() {
    assert!(exposed_environment(&Vec::new()).is_empty());
}

#[test]
fn text_comparisons() {
    assert!(starts_with_text("POD_NAME", "POD_"));
    assert!(starts_with_text("abc", ""));
    assert!(!starts_with_text("PO", "POD_"));
    assert!(!starts_with_text("XPOD_", "POD_"));
    assert!(same_text("HOME", "HOME"));
    assert!(!same_text("HOME", "HOMER"));
    assert!(!same_text("HOME", "HOMe"));
}

#[test]
fn decimal_texts() {
    assert_eq!(decimal_text(0), "0");
    assert_eq!(decimal_text(7), "7");
    assert_eq!(decimal_text(10), "10");
    assert_eq!(decimal_text(1_234_567_890), "1234567890");
    assert_eq!(decimal_text(u64::MAX), u64::MAX.to_string());
}

#[test]
fn port_settings() {
    assert_eq!(port_from_setting(None), 8080);
    assert_eq!(port_from_setting(Some("9090")), 9090);
    assert_eq!(port_from_setting(Some("+80")), 80);
    assert_eq!(port_from_setting(Some("0")), 0);
    assert_eq!(port_from_setting(Some("65535")), 65535);
    assert_eq!(port_from_setting(Some("007")), 7);
}

#[test]
fn bad_port_settings_fall_back() {
    for s in ["", "+", "65536", "99999999999999999999", "abc", "-1", " 80", "80 ", "8o80"] {
        assert_eq!(port_from_setting(Some(s)), DEFAULT_PORT, "{s:?}");
    }
}

#[test]
fn metrics_page_text() {
    let m = MetricsSnapshot { uptime_seconds: 12, memory_total_bytes: 8_000, memory_used_bytes: 3_000, cpu_count: 4 };
    let expected = "# HELP app_uptime_seconds Time since application started
# TYPE app_uptime_seconds gauge
app_uptime_seconds 12

# HELP app_memory_total_bytes Total system memory
# TYPE app_memory_total_bytes gauge
app_memory_total_bytes 8000

# HELP app_memory_used_bytes Used system memory
# TYPE app_memory_used_bytes gauge
app_memory_used_bytes 3000

# HELP app_cpu_count Number of CPUs available
# TYPE app_cpu_count gauge
app_cpu_count 4
";
    assert_eq!(render_metrics(&m), expected);
}

#[test]
fn metrics_page_parses_into_four_gauges() {
    let m = MetricsSnapshot { uptime_seconds: 0, memory_total_bytes: 17_179_869_184, memory_used_bytes: 5_368_709_120, cpu_count: 16 };
    let text = render_metrics(&m);
    let mut samples: Vec<(String, u64)> = Vec::new();
    let mut gauges: Vec<String> = Vec::new();
    for line in text.lines() {
        if line.is_empty() || line.starts_with("# HELP ") {
            continue;
        }
        if let Some(rest) = line.strip_prefix("# TYPE ") {
            let (name, kind) = rest.split_once(' ').unwrap();
            assert_eq!(kind, "gauge");
            gauges.push(name.to_string());
            continue;
        }
        let (name, value) = line.split_once(' ').unwrap();
        samples.push((name.to_string(), value.parse::<u64>().unwrap()));
    }
    assert_eq!(gauges.len(), 4);
    let names: Vec<String> = samples.iter().map(|(n, _)| n.clone()).collect();
    assert_eq!(names, gauges);
    assert_eq!(samples[0].1, 0);
    assert_eq!(samples[3].1, 16);
    assert!(samples[2].1 <= samples[1].1);
}

#[test]
fn landing_page_names_host_uptime_and_uid() {
    let page = render_landing_page("demo-pod-7", 42, 1000);
    assert!(page.starts_with("<!DOCTYPE html>"));
    assert!(page.contains("<strong>Pod:</strong> demo-pod-7 &nbsp;|&nbsp;"));
    assert!(page.contains("<span class=\"uptime\">42s</span>"));
    assert!(page.contains("<strong>UID:</strong> 1000\n"));
    assert!(page.contains(":root { --accent: #e44d26;"));
    assert!(page.ends_with("</html>"));
}

#[test]
fn unknown_host_fallback() {
    assert_eq!(host_or_unknown(None), "unknown");
    assert_eq!(host_or_unknown(Some("node-1".to_string())), "node-1");
}

#[test]
fn memory_in_mebibytes() {
    assert_eq!(bytes_to_mb(0), 0);
    assert_eq!(bytes_to_mb(1_048_575), 0);
    assert_eq!(bytes_to_mb(1_048_576), 1);
    assert_eq!(bytes_to_mb(17_179_869_184), 16_384);
}

#[test]
fn system_snapshot_defaults() {
    let s = SystemSnapshot::from_readings(Some("Linux".to_string()), None, Some("6.1".to_string()), 8, 3_145_728, 2_097_151);
    assert_eq!(s.os_name, "Linux");
    assert_eq!(s.os_version, "");
    assert_eq!(s.kernel_version, "6.1");
    assert_eq!(s.cpu_count, 8);
    assert_eq!(s.total_memory_mb, 3);
    assert_eq!(s.used_memory_mb, 1);
}

#[test]
fn container_info_gathers_readings() {
    let vars = pairs(&[("HOME", "/root"), ("API_KEY", "SECRET-REDACTED")]);
    let sys = SystemSnapshot::from_readings(None, None, None, 1, 0, 0);
    let info = ContainerInfo::gather(None, 1001, 0, &vars, sys);
    assert_eq!(info.hostname, "unknown");
    assert_eq!(info.user_id, 1001);
    assert_eq!(info.group_id, 0);
    assert_eq!(info.environment, pairs(&[("HOME", "/root")]));
    assert_eq!(info.system.os_name, "");
}

#[test]
fn crash_plan_waits_then_faults() {
    let plan = crash_plan();
    assert_eq!(plan.delay_ms, 100);
    assert_eq!(CRASH_DELAY_MS, 100);
    assert_eq!(plan.message, "Crashing in 100ms... watch your pod restart! 💥");
}

#[test]
fn fib_query_parameter() {
    assert_eq!(fib_query(None), FibOutcome { n: 10, result: 55 });
    assert_eq!(fib_query(Some("1")), FibOutcome { n: 1, result: 1 });
    assert_eq!(fib_query(Some("20")), FibOutcome { n: 20, result: 6765 });
    assert_eq!(fib_query(Some("abc")), FibOutcome { n: 10, result: 55 });
    assert_eq!(fib_query(Some("-3")), FibOutcome { n: 10, result: 55 });
    assert_eq!(fib_query(Some("")), FibOutcome { n: 10, result: 55 });
}

#[test]
fn unsigned_numbers() {
    assert_eq!(parse_unsigned("18446744073709551615", u64::MAX), Some(u64::MAX));
    assert_eq!(parse_unsigned("18446744073709551616", u64::MAX), None);
    assert_eq!(parse_unsigned("100", 99), None);
    assert_eq!(parse_unsigned("99", 99), Some(99));
    assert_eq!(parse_unsigned("+5", 9), Some(5));
    assert_eq!(parse_unsigned("12a", 1000), None);
}
