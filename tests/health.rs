use sidecar_orchestration::health::{
    orchestrator_start_error, orchestrator_start_timeout_ms, sandbox_health_timeout_ms,
    warmup_failure_message, HealthWait, WaitPhase, HEALTH_POLL_INTERVAL_MS,
};

#[test]
fn becomes_ready_after_failures_and_clears_error() {
    let mut wait = HealthWait::new(2000, "Timed out".to_string());
    let mut elapsed = 0u64;
    while wait.poll(elapsed) {
        if elapsed < 500 {
            assert!(!wait.record_http_status(503));
        } else {
            assert!(wait.record_http_status(200));
            break;
        }
        elapsed += HEALTH_POLL_INTERVAL_MS;
    }
    assert_eq!(wait.phase, WaitPhase::Ready);
    assert!(wait.last_error.is_none());
}

#[test]
fn times_out_with_last_error() {
    let mut wait = HealthWait::new(300, "Timed out".to_string());
    let mut elapsed = 0u64;
    let mut n = 0;
    while wait.poll(elapsed) {
        n += 1;
        wait.record_error(format!("connection refused #{n}"));
        elapsed += HEALTH_POLL_INTERVAL_MS;
    }
    assert_eq!(wait.phase, WaitPhase::TimedOut);
    assert_eq!(wait.failure_message(), "connection refused #2");
}

#[test]
fn times_out_with_fallback_when_never_probed() {
    let mut wait = HealthWait::for_orchestrator(1000);
    assert!(!wait.poll(1000));
    assert_eq!(wait.failure_message(), "Timed out waiting for orchestrator");
    let sandbox = HealthWait::for_sandbox(true);
    assert_eq!(sandbox.timeout_ms, 90000);
    assert_eq!(sandbox.failure_message(), "Timed out waiting for OpenWork server");
}

#[test]
fn unhealthy_report_is_an_error() {
    let mut wait = HealthWait::for_orchestrator(5000);
    wait.record_health_report(false);
    assert_eq!(wait.phase, WaitPhase::Waiting);
    assert_eq!(wait.last_error.as_deref(), Some("Orchestrator reported unhealthy"));
    wait.record_health_report(true);
    assert_eq!(wait.phase, WaitPhase::Ready);
    assert!(wait.last_error.is_none());
}

#[test]
fn http_status_error_text() {
    let mut wait = HealthWait::for_sandbox(false);
    assert_eq!(wait.timeout_ms, 12000);
    assert!(!wait.record_http_status(404));
    assert_eq!(wait.failure_message(), "HTTP 404");
    assert!(!wait.record_http_status(300));
    assert!(wait.record_http_status(299));
}

#[test]
fn start_timeout_defaults_and_minimum() {
    assert_eq!(orchestrator_start_timeout_ms(None), 180000);
    assert_eq!(orchestrator_start_timeout_ms(Some("abc")), 180000);
    assert_eq!(orchestrator_start_timeout_ms(Some(" 5000 ")), 5000);
    assert_eq!(orchestrator_start_timeout_ms(Some("10")), 1000);
    assert_eq!(orchestrator_start_timeout_ms(Some("99999999999999999999")), 180000);
    assert_eq!(sandbox_health_timeout_ms(true), 90000);
    assert_eq!(sandbox_health_timeout_ms(false), 12000);
}

#[test]
fn warmup_failure_reports_status_and_output() {
    assert_eq!(
        warmup_failure_message(Some(1), "  out  ", ""),
        "OpenCode exited immediately with status 1.\n\nstdout:\nout"
    );
    assert_eq!(
        warmup_failure_message(None, "", " "),
        "OpenCode exited immediately with status -1."
    );
    assert_eq!(
        warmup_failure_message(Some(-9), "a", "b"),
        "OpenCode exited immediately with status -9.\n\nstdout:\na\n\nstderr:\nb"
    );
}

#[test]
fn start_error_names_the_wait() {
    assert_eq!(
        orchestrator_start_error(180000, "boom"),
        "Failed to start orchestrator (waited 180000ms): boom"
    );
}
