use backend_supervisor::error::StartError;
use backend_supervisor::health::{
    classify, health_url, probe, HealthCheckOutcome, HealthMonitor, PollAction, MAX_ATTEMPTS,
    POLL_INTERVAL_MS,
};
use backend_supervisor::paths::LocalPath;

/// Feeds probe results to a fresh poller until it stops asking for more;
/// gives the probes made, the final action, and the milliseconds waited.
fn drive(healthy: &[bool]) -> (u32, Option<PollAction>, u64) {
    let mut m = HealthMonitor::new();
    let mut waited = 0u64;
    for (i, h) in healthy.iter().enumerate() {
        let outcome = if *h { HealthCheckOutcome::Success } else { HealthCheckOutcome::Unreachable };
        match m.record(&outcome) {
            PollAction::RetryAfter(ms) => waited += ms,
            a => {
                assert_eq!(m.attempts() as usize, i + 1);
                return (m.attempts(), Some(a), waited);
            }
        }
    }
    (m.attempts(), None, waited)
}

#[test]
fn classify_statuses() {
    assert_eq!(classify(None), HealthCheckOutcome::Unreachable);
    assert_eq!(classify(Some(200)), HealthCheckOutcome::Success);
    assert_eq!(classify(Some(204)), HealthCheckOutcome::Success);
    assert_eq!(classify(Some(299)), HealthCheckOutcome::Success);
    assert_eq!(classify(Some(300)), HealthCheckOutcome::HttpError(300));
    assert_eq!(classify(Some(199)), HealthCheckOutcome::HttpError(199));
    assert_eq!(classify(Some(503)), HealthCheckOutcome::HttpError(503));
}

#[test]
fn health_url_for_port() {
    assert_eq!(health_url(4000), "http://127.0.0.1:4000/health");
    assert_eq!(health_url(80), "http://127.0.0.1:80/health");
}

#[test]
fn ready_on_first_probe() {
    assert_eq!(drive(&[true]), (1, Some(PollAction::Ready), 0));
}

#[test]
fn ready_after_k_probes() {
    for k in 1..MAX_ATTEMPTS as usize {
        let mut h = vec![false; k - 1];
        h.push(true);
        h.extend(vec![true; 40]);
        let (polls, action, waited) = drive(&h);
        assert_eq!(polls as usize, k);
        assert_eq!(action, Some(PollAction::Ready));
        assert_eq!(waited, (k as u64 - 1) * POLL_INTERVAL_MS);
    }
}

#[test]
fn never_healthy_times_out_after_thirty_probes() {
    let (polls, action, waited) = drive(&vec![false; 100]);
    assert_eq!(polls, 30);
    assert_eq!(action, Some(PollAction::TimedOut));
    assert_eq!(waited, 14_500);
    assert!(waited >= 14_500 && waited <= 15_500);
}

#[test]
fn http_errors_are_retried() {
    let mut m = HealthMonitor::new();
    assert_eq!(m.record(&HealthCheckOutcome::HttpError(500)), PollAction::RetryAfter(500));
    assert_eq!(m.record(&HealthCheckOutcome::HttpError(404)), PollAction::RetryAfter(500));
    assert_eq!(m.record(&HealthCheckOutcome::Success), PollAction::Ready);
    assert_eq!(m.attempts(), 3);
}

#[test]
fn finished_poller_stays_finished() {
    let mut m = HealthMonitor::new();
    assert_eq!(m.record(&HealthCheckOutcome::Success), PollAction::Ready);
    assert_eq!(m.record(&HealthCheckOutcome::Unreachable), PollAction::Ready);
    assert_eq!(m.attempts(), 1);
    let mut t = HealthMonitor::new();
    for _ in 0..30 {
        t.record(&HealthCheckOutcome::Unreachable);
    }
    assert_eq!(t.record(&HealthCheckOutcome::Success), PollAction::TimedOut);
    assert_eq!(t.attempts(), 30);
}

#[test]
fn timeout_error_reports_attempts_and_time() {
    let mut m = HealthMonitor::new();
    for _ in 0..30 {
        m.record(&HealthCheckOutcome::Unreachable);
    }
    let log = LocalPath { root: "/".to_string(), parts: vec!["logs".to_string()] };
    let e = m.timeout_error(4000, log.clone());
    assert_eq!(
        e,
        StartError::HealthCheckTimeout { attempts: 30, elapsed_ms: 15_000, port: 4000, log_file: log }
    );
}

#[test]
fn probe_of_closed_port_is_unreachable() {
    assert_eq!(probe(&health_url(1)), HealthCheckOutcome::Unreachable);
}

#[test]
fn probe_of_malformed_url_is_unreachable() {
    assert_eq!(probe("not a url"), HealthCheckOutcome::Unreachable);
}
