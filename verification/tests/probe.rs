use fleet_supervisor::probe::{ProbeStatus, ReadinessProbe};

#[test]
fn probe_times_out_at_deadline_not_before() {
    let mut probe = ReadinessProbe::new(90_000, 10_000);
    for attempt in 0..9 {
        let status = probe.record_attempt(false);
        assert_eq!(
            status,
            ProbeStatus::Retry { sleep_ms: 10_000 },
            "attempt {attempt} lies before the deadline and must retry"
        );
    }
    let status = probe.record_attempt(false);
    assert_eq!(status, ProbeStatus::TimedOut, "90 s of ordered sleeps exhaust the deadline");
}

#[test]
fn probe_succeeds_after_retries() {
    let mut probe = ReadinessProbe::new(90_000, 10_000);
    assert_eq!(probe.record_attempt(false), ProbeStatus::Retry { sleep_ms: 10_000 });
    assert_eq!(probe.record_attempt(false), ProbeStatus::Retry { sleep_ms: 10_000 });
    assert_eq!(probe.record_attempt(true), ProbeStatus::Ready);
}

#[test]
fn probe_with_zero_deadline_times_out_at_once() {
    let mut probe = ReadinessProbe::new(0, 100);
    assert_eq!(probe.record_attempt(false), ProbeStatus::TimedOut);
}

#[test]
fn probe_ready_wins_even_at_deadline() {
    let mut probe = ReadinessProbe::new(200, 100);
    assert_eq!(probe.record_attempt(false), ProbeStatus::Retry { sleep_ms: 100 });
    assert_eq!(probe.record_attempt(false), ProbeStatus::Retry { sleep_ms: 100 });
    assert_eq!(probe.record_attempt(true), ProbeStatus::Ready);
}
