use std::collections::HashMap;

use pingdown::ping::{check_status, evaluate, get_status, ProbeError};
use pingdown::runtime::{add_one, MetricEvent, Metrics};
use pingdown::system::{DefaultSystem, Platform};
use pingdown::MonitorConfig;

/// Answers probes from a script: for each target a sequence of outcomes, used
/// front to back, the last of which repeats. A target without a script does
/// not answer.
struct StubSystem {
    responses: HashMap<String, Vec<bool>>,
}

impl StubSystem {
    fn with_static(map: &[(&str, bool)]) -> Self {
        let mut responses = HashMap::new();
        for (ip, ok) in map {
            responses.insert((*ip).to_string(), vec![*ok]);
        }
        StubSystem { responses }
    }

    fn run_shell_command(&mut self, command: &str) -> Result<Vec<u8>, ProbeError> {
        // The command ends with the target.
        let ip = command.split_whitespace().last().unwrap_or("").to_string();
        let seq = self.responses.entry(ip).or_insert_with(|| vec![false]);
        let result = match seq.len() {
            0 => false,
            1 => seq[0],
            _ => seq.remove(0),
        };
        if result {
            Ok("Reply from 1.1.1.1: bytes=32 time=1ms TTL=64".as_bytes().to_vec())
        } else {
            Ok("Request timed out.".as_bytes().to_vec())
        }
    }
}

fn base_config(strict: bool, addrs: Vec<&str>) -> MonitorConfig {
    MonitorConfig {
        targets: addrs.into_iter().map(|s| s.to_string()).collect(),
        strict,
        normal_interval: 1,
        emergency_interval: 1,
        emergency_retries: 1,
        quiet: true,
        status_only: true,
        progress: false,
        verbose: 0,
    }
}

/// One poll cycle against the stub: every target is probed, then the cycle
/// is evaluated.
fn poll(cfg: &MonitorConfig, metrics: &mut Metrics, sys: &mut StubSystem) -> (bool, u64, u64) {
    let mut outcomes = Vec::new();
    for ip in &cfg.targets {
        let command = DefaultSystem::new().build_ping_command(Platform::Unix, ip);
        let response = sys.run_shell_command(&command);
        outcomes.push(get_status(&response));
    }
    check_status(cfg, &outcomes, metrics)
}

#[test]
fn any_success_mode_reports_ok_when_one_target_succeeds() {
    let mut sys = StubSystem::with_static(&[("a", false), ("b", true)]);
    let cfg = base_config(false, vec!["a", "b"]);
    let mut metrics = Metrics::new();

    let (status, succ, fail) = poll(&cfg, &mut metrics, &mut sys);
    assert!(status);
    assert_eq!(succ, 1);
    assert_eq!(fail, 1);
}

#[test]
fn strict_mode_requires_all_success() {
    let mut sys = StubSystem::with_static(&[("a", true), ("b", false)]);
    let cfg = base_config(true, vec!["a", "b"]);
    let mut metrics = Metrics::new();

    let (status, succ, fail) = poll(&cfg, &mut metrics, &mut sys);
    assert!(!status);
    assert_eq!(succ, 1);
    assert_eq!(fail, 1);
}

#[test]
fn metrics_are_incremented() {
    let mut sys = StubSystem::with_static(&[("a", true), ("b", false)]);
    let cfg = base_config(false, vec!["a", "b"]);
    let mut metrics = Metrics::new();

    let _ = poll(&cfg, &mut metrics, &mut sys);
    assert_eq!(metrics.total_succeeds, 1);
    assert_eq!(metrics.total_failures, 1);

    add_one(&mut metrics, MetricEvent::NormalLoopTimes);
    assert_eq!(metrics.total_normal_loop_times, 1);
}

#[test]
fn probe_output_is_read_for_the_ttl_field() {
    assert!(get_status(&Ok(b"64 bytes from 1.1.1.1: icmp_seq=1 ttl=57 time=9.1 ms".to_vec())));
    assert!(get_status(&Ok(b"Reply from 1.1.1.1: bytes=32 time=1ms TTL=64".to_vec())));
    assert!(get_status(&Ok(b"ttl".to_vec())));
    assert!(!get_status(&Ok(b"Request timed out.".to_vec())));
    assert!(!get_status(&Ok(b"Ttl=64 tTL=1 TT L tt".to_vec())));
    assert!(!get_status(&Ok(Vec::new())));
    // Bytes that are no text do not hide the field.
    assert!(get_status(&Ok(vec![0xff, 0xfe, b'T', b'T', b'L', 0x80])));
    // A probe that could not be run counts as no answer.
    assert!(!get_status(&Err(ProbeError { message: "spawn failed: TTL".to_string() })));
}

#[test]
fn verdict_policies_on_every_combination_of_three_targets() {
    for bits in 0u8..8 {
        let outcomes: Vec<bool> = (0..3).map(|i| bits & (1 << i) != 0).collect();
        let ups = outcomes.iter().filter(|up| **up).count() as u64;
        let any = evaluate(&outcomes, false);
        let all = evaluate(&outcomes, true);
        assert_eq!(any.succeed_count, ups);
        assert_eq!(any.fail_count, 3 - ups);
        assert_eq!(any.succeed_count + any.fail_count, 3);
        assert_eq!(any.overall, ups > 0);
        assert_eq!(all.overall, ups == 3);
        assert_eq!((all.succeed_count, all.fail_count), (any.succeed_count, any.fail_count));
    }
}

#[test]
fn single_target_policies_coincide() {
    for up in [false, true] {
        let outcomes = vec![up];
        assert_eq!(evaluate(&outcomes, false).overall, up);
        assert_eq!(evaluate(&outcomes, true).overall, up);
    }
}

#[test]
fn all_targets_are_counted_after_the_verdict_is_settled() {
    let cfg = base_config(false, vec!["a", "b", "c", "d"]);
    let mut metrics = Metrics::new();
    let (status, succ, fail) = check_status(&cfg, &vec![true, false, true, false], &mut metrics);
    assert!(status);
    assert_eq!((succ, fail), (2, 2));
    assert_eq!(metrics.total_succeeds, 2);
    assert_eq!(metrics.total_failures, 2);
    assert_eq!(metrics.total_normal_loop_times, 0);
    assert_eq!(metrics.total_emergency_loop_times, 0);

    let strict = base_config(true, vec!["a", "b", "c", "d"]);
    let (status, succ, fail) = check_status(&strict, &vec![false, true, true, true], &mut metrics);
    assert!(!status);
    assert_eq!((succ, fail), (3, 1));
    assert_eq!(metrics.total_succeeds, 5);
    assert_eq!(metrics.total_failures, 3);
}
