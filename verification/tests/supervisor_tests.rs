use commitgen::config::PipelineConfig;
use commitgen::errors::ServiceError;
use commitgen::supervisor::{ServiceState, ServiceSupervisor};

fn fresh() -> ServiceSupervisor {
    ServiceSupervisor::new(&PipelineConfig::standard())
}

#[test]
fn standard_configuration_bounds_the_loop() {
    let s = fresh();
    assert_eq!(s.max_probes, 30);
    assert_eq!(s.poll_interval_secs, 1);
    assert_eq!(s.state, ServiceState::Unknown);
}

#[test]
fn reachable_backend_is_ready_at_once() {
    let mut s = fresh();
    let launch_due = s.record_initial_probe(true);
    assert!(!launch_due);
    assert_eq!(s.state, ServiceState::Ready);
    assert_eq!(s.outcome(), Some(Ok(())));
}

#[test]
fn unreachable_backend_asks_for_one_launch() {
    let mut s = fresh();
    let launch_due = s.record_initial_probe(false);
    assert!(launch_due);
    s.record_launch(true);
    assert_eq!(s.state, ServiceState::Starting);
}

#[test]
fn failed_launch_settles_failure() {
    let mut s = fresh();
    assert!(s.record_initial_probe(false));
    s.record_launch(false);
    assert_eq!(s.state, ServiceState::Failed);
    assert_eq!(s.outcome(), Some(Err(ServiceError::ServiceUnavailable)));
}

#[test]
fn first_successful_probe_terminates_the_loop() {
    let mut s = fresh();
    assert!(s.record_initial_probe(false));
    s.record_launch(true);
    s.record_probe(false);
    s.record_probe(false);
    s.record_probe(true);
    assert_eq!(s.state, ServiceState::Ready);
    assert_eq!(s.probes_used, 3);
    assert_eq!(s.outcome(), Some(Ok(())));
}

#[test]
fn success_on_the_last_permitted_probe_is_still_ready() {
    let mut s = fresh();
    assert!(s.record_initial_probe(false));
    s.record_launch(true);
    for _ in 0..29 {
        s.record_probe(false);
    }
    assert_eq!(s.state, ServiceState::Starting);
    s.record_probe(true);
    assert_eq!(s.state, ServiceState::Ready);
    assert_eq!(s.probes_used, 30);
}

#[test]
fn probing_never_exceeds_thirty_attempts() {
    let mut s = fresh();
    assert!(s.record_initial_probe(false));
    s.record_launch(true);
    let mut attempts = 0;
    while s.state == ServiceState::Starting {
        s.record_probe(false);
        attempts += 1;
    }
    assert_eq!(attempts, 30);
    assert_eq!(s.probes_used, 30);
    assert_eq!(s.state, ServiceState::Failed);
    assert_eq!(s.outcome(), Some(Err(ServiceError::ServiceUnavailable)));
}
