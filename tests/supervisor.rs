use sidecar::config::{loopback_address, push_decimal, SIDECAR_PORT};
use sidecar::lifecycle::{Lifecycle, StartStep};
use sidecar::probe::{health_request, probe_ready, response_body, HealthResponse, ProbeFailure};
use sidecar::readiness::{HealthWait, WaitAction};
use sidecar::supervisor::{
    check_backend_health, finish_start, get_backend_url, relay_event, start_backend, start_sidecar,
    stop_backend, stop_sidecar, OutputEvent, RelayStep, SpawnError, SpawnStage,
    SupervisorError,
};
use std::cell::Cell;

fn answer(model_loaded: bool) -> Result<HealthResponse, ProbeFailure> {
    Ok(HealthResponse {
        status: "ok".to_string(),
        model_loaded,
        version: "1.0".to_string(),
    })
}

fn failure(message: &str) -> Result<HealthResponse, ProbeFailure> {
    Err(ProbeFailure { message: message.to_string() })
}

fn decimal_of(n: u64) -> String {
    let mut s = String::new();
    push_decimal(&mut s, n);
    s
}

/// Drives a wait on a virtual clock where each round costs one sleep.
fn drive_wait(
    timeout_ms: u64,
    interval_ms: u64,
    mut probe: impl FnMut(u64) -> Result<HealthResponse, ProbeFailure>,
) -> (WaitAction, u64, u64) {
    let mut wait = HealthWait::new(timeout_ms, interval_ms);
    let mut elapsed: u64 = 0;
    loop {
        match wait.before_probe(elapsed) {
            WaitAction::Probe => {}
            other => return (other, wait.attempts, elapsed),
        }
        let outcome = probe(wait.attempts);
        match wait.after_probe(&outcome) {
            WaitAction::Sleep(ms) => elapsed += ms,
            other => return (other, wait.attempts, elapsed),
        }
    }
}

#[test]
fn decimal_notation() {
    assert_eq!(decimal_of(0), "0");
    assert_eq!(decimal_of(7), "7");
    assert_eq!(decimal_of(10), "10");
    assert_eq!(decimal_of(14200), "14200");
    assert_eq!(decimal_of(u64::MAX), "18446744073709551615");
    let mut s = "port ".to_string();
    push_decimal(&mut s, 30);
    assert_eq!(s, "port 30");
}

#[test]
fn endpoint_and_address() {
    assert_eq!(SIDECAR_PORT, 14200);
    assert_eq!(loopback_address(), "127.0.0.1:14200");
    assert_eq!(get_backend_url(), "http://127.0.0.1:14200");
}

#[test]
fn request_text() {
    assert_eq!(
        health_request(),
        "GET /health HTTP/1.1\r\nHost: 127.0.0.1:14200\r\nConnection: close\r\n\r\n"
    );
}

#[test]
fn body_after_headers() {
    let reply = "HTTP/1.1 200 OK\r\nContent-Type: application/json\r\n\r\n{\"status\":\"ok\"}";
    assert_eq!(response_body(reply).ok().unwrap(), "{\"status\":\"ok\"}");
}

#[test]
fn body_runs_to_end_past_blank_lines() {
    let reply = "HTTP/1.1 200 OK\r\n\r\nfirst\r\n\r\nsecond";
    assert_eq!(response_body(reply).ok().unwrap(), "first\r\n\r\nsecond");
}

#[test]
fn empty_body() {
    assert_eq!(response_body("HTTP/1.1 200 OK\r\n\r\n").ok().unwrap(), "");
    assert_eq!(response_body("\r\n\r\n").ok().unwrap(), "");
}

#[test]
fn reply_without_delimiter_is_probe_failure() {
    let r = response_body("HTTP/1.1 200 OK\r\nContent-Length: 0\r\n");
    assert_eq!(r.err().unwrap().message, "Invalid HTTP response");
    assert!(response_body("").is_err());
    assert!(response_body("\r\n\r").is_err());
}

#[test]
fn non_ascii_reply() {
    let reply = "HTTP/1.1 200 OK\r\nX: é\r\n\r\n{\"version\":\"ü\"}";
    assert_eq!(response_body(reply).ok().unwrap(), "{\"version\":\"ü\"}");
}

#[test]
fn readiness_of_probe_outcomes() {
    assert!(probe_ready(&answer(true)));
    assert!(!probe_ready(&answer(false)));
    assert!(!probe_ready(&failure("Connection failed")));
}

#[test]
fn start_twice_spawns_once() {
    let mut state: Lifecycle<u32> = Lifecycle::new();
    let spawns = Cell::new(0u32);
    assert_eq!(state.begin_start(), StartStep::Spawn);
    let first = start_sidecar(&mut state, || {
        spawns.set(spawns.get() + 1);
        Ok::<u32, SpawnError>(41)
    });
    assert!(first.is_ok());
    assert!(state.is_running());
    assert_eq!(state.begin_start(), StartStep::AlreadyRunning);
    let second = start_sidecar(&mut state, || {
        spawns.set(spawns.get() + 1);
        Ok::<u32, SpawnError>(42)
    });
    assert!(second.is_ok());
    assert_eq!(spawns.get(), 1);
    let mut killed = Vec::new();
    stop_sidecar(&mut state, |h| {
        killed.push(h);
        Ok(())
    })
    .ok()
    .unwrap();
    assert_eq!(killed, vec![41]);
}

#[test]
fn spawn_failure_leaves_state_idle() {
    let mut state: Lifecycle<u32> = Lifecycle::new();
    let r = start_sidecar(&mut state, || {
        Err(SpawnError { stage: SpawnStage::Launch, detail: "permission denied".to_string() })
    });
    match r {
        Err(SupervisorError::SpawnFailure(e)) => {
            assert_eq!(e.stage, SpawnStage::Launch);
            assert_eq!(e.detail, "permission denied");
        }
        _ => panic!("expected a spawn failure"),
    }
    assert!(!state.is_running());
    assert!(!state.has_handle());
    assert!(start_sidecar(&mut state, || Ok::<u32, SpawnError>(5)).is_ok());
    assert!(state.is_running());
}

#[test]
fn stop_when_idle_is_noop() {
    let mut state: Lifecycle<u32> = Lifecycle::new();
    let calls = Cell::new(0u32);
    let r = stop_sidecar(&mut state, |_h| {
        calls.set(calls.get() + 1);
        Ok(())
    });
    assert!(r.is_ok());
    assert_eq!(calls.get(), 0);
    assert!(!state.is_running());
    assert!(!state.has_handle());
}

#[test]
fn double_stop_kills_once() {
    let mut state: Lifecycle<u32> = Lifecycle::new();
    start_sidecar(&mut state, || Ok::<u32, SpawnError>(9)).ok().unwrap();
    let calls = Cell::new(0u32);
    let kill = |_h: u32| {
        calls.set(calls.get() + 1);
        Ok(())
    };
    assert!(stop_sidecar(&mut state, kill).is_ok());
    assert!(stop_sidecar(&mut state, kill).is_ok());
    assert_eq!(calls.get(), 1);
}

#[test]
fn rejected_kill_still_clears_state() {
    let mut state: Lifecycle<u32> = Lifecycle::new();
    start_sidecar(&mut state, || Ok::<u32, SpawnError>(3)).ok().unwrap();
    let r = stop_sidecar(&mut state, |_h| Err("no such process".to_string()));
    match r {
        Err(SupervisorError::StopFailure(d)) => assert_eq!(d, "no such process"),
        _ => panic!("expected a stop failure"),
    }
    assert!(!state.is_running());
    assert!(!state.has_handle());
    assert!(start_sidecar(&mut state, || Ok::<u32, SpawnError>(4)).is_ok());
    assert!(state.is_running());
}

#[test]
fn crash_is_reported_without_stop() {
    let mut state: Lifecycle<u32> = Lifecycle::new();
    start_sidecar(&mut state, || Ok::<u32, SpawnError>(1)).ok().unwrap();
    assert_eq!(relay_event(&mut state, OutputEvent::Stdout), RelayStep::LogStdout);
    assert!(state.is_running());
    assert_eq!(relay_event(&mut state, OutputEvent::Terminated), RelayStep::Finish);
    let status = check_backend_health(state.is_running(), &failure("Connection failed"));
    assert!(!status.running);
    assert!(!status.healthy);
    assert!(!state.has_handle());
}

#[test]
fn relay_steps() {
    let mut state: Lifecycle<u32> = Lifecycle::new();
    assert_eq!(relay_event(&mut state, OutputEvent::Stderr), RelayStep::LogStderr);
    assert_eq!(relay_event(&mut state, OutputEvent::Error), RelayStep::LogStderr);
    assert_eq!(relay_event(&mut state, OutputEvent::Other), RelayStep::Skip);
    assert_eq!(relay_event(&mut state, OutputEvent::Terminated), RelayStep::Finish);
    assert!(!state.is_running());
}

#[test]
fn handle_present_iff_running_after_events() {
    let mut state: Lifecycle<u32> = Lifecycle::new();
    let check = |s: &Lifecycle<u32>| assert_eq!(s.has_handle(), s.is_running());
    check(&state);
    start_sidecar(&mut state, || Ok::<u32, SpawnError>(1)).ok().unwrap();
    check(&state);
    relay_event(&mut state, OutputEvent::Terminated);
    check(&state);
    stop_sidecar(&mut state, |_h| Ok(())).ok().unwrap();
    check(&state);
    start_sidecar(&mut state, || Ok::<u32, SpawnError>(2)).ok().unwrap();
    check(&state);
    stop_sidecar(&mut state, |_h| Ok(())).ok().unwrap();
    check(&state);
    relay_event(&mut state, OutputEvent::Terminated);
    check(&state);
    let _ = start_sidecar(&mut state, || {
        Err::<u32, SpawnError>(SpawnError { stage: SpawnStage::Resolve, detail: "x".to_string() })
    });
    check(&state);
}

#[test]
fn wait_times_out_when_never_ready() {
    let (action, attempts, elapsed) = drive_wait(2000, 500, |_| answer(false));
    assert_eq!(action, WaitAction::TimedOut);
    assert_eq!(attempts, 4);
    assert_eq!(elapsed, 2000);
}

#[test]
fn wait_times_out_when_unreachable() {
    let (action, attempts, _) = drive_wait(2000, 500, |_| failure("Connection failed"));
    assert_eq!(action, WaitAction::TimedOut);
    assert_eq!(attempts, 4);
}

#[test]
fn wait_succeeds_on_third_probe() {
    let (action, attempts, elapsed) =
        drive_wait(30_000, 500, |made| answer(made >= 2));
    assert_eq!(action, WaitAction::Ready);
    assert_eq!(attempts, 3);
    assert_eq!(elapsed, 1000);
}

#[test]
fn standard_wait() {
    let w = HealthWait::standard();
    assert_eq!(w.timeout_ms, 30_000);
    assert_eq!(w.interval_ms, 500);
    assert_eq!(w.before_probe(29_999), WaitAction::Probe);
    assert_eq!(w.before_probe(30_000), WaitAction::TimedOut);
}

#[test]
fn malformed_payload_reads_unhealthy() {
    let reply = "HTTP/1.1 200 OK\r\n\r\nnot json at all";
    let body = response_body(reply).ok().unwrap();
    let parsed: Result<serde_json::Value, _> = serde_json::from_str(&body);
    assert!(parsed.is_err());
    let probe = failure("Failed to parse response");
    let status = check_backend_health(true, &probe);
    assert!(status.running);
    assert!(!status.healthy);
    assert_eq!(status.url, "http://127.0.0.1:14200");
    let status = check_backend_health(false, &probe);
    assert!(!status.running);
}

#[test]
fn healthy_status() {
    let status = check_backend_health(true, &answer(true));
    assert!(status.running && status.healthy);
    let status = check_backend_health(true, &answer(false));
    assert!(status.running && !status.healthy);
}

#[test]
fn start_and_stop_results_for_host() {
    let st = start_backend(Ok(())).ok().unwrap();
    assert!(st.running && st.healthy);
    assert_eq!(st.url, "http://127.0.0.1:14200");
    let e = start_backend(Err(SupervisorError::HealthTimeout { timeout_secs: 30 }));
    assert!(e.err().unwrap().starts_with("Backend service failed to start within 30 seconds."));
    assert!(stop_backend(Ok(())).is_ok());
    assert_eq!(
        stop_backend(Err(SupervisorError::StopFailure("denied".to_string()))).err().unwrap(),
        "Failed to kill sidecar: denied"
    );
}

#[test]
fn error_messages() {
    let resolve = SupervisorError::SpawnFailure(SpawnError {
        stage: SpawnStage::Resolve,
        detail: "not found".to_string(),
    });
    assert_eq!(
        resolve.message(),
        "Failed to create sidecar command: not found. The sidecar binary 'anonymize-api' may be missing from the installation."
    );
    let launch = SupervisorError::SpawnFailure(SpawnError {
        stage: SpawnStage::Launch,
        detail: "denied".to_string(),
    });
    assert_eq!(
        launch.message(),
        "Failed to start the backend service: denied. Possible causes: (1) The executable may be blocked by antivirus software, (2) Required system libraries may be missing, (3) The application may not have permission to run executables. Try running the application as administrator or check your antivirus settings."
    );
    assert_eq!(
        SupervisorError::HealthTimeout { timeout_secs: 2 }.message(),
        "Backend service failed to start within 2 seconds. The service may have crashed during startup. Check if port 14200 is already in use by another application, or if there are missing dependencies (Python runtime, spaCy model)."
    );
}

#[test]
fn timed_out_wait_fails_the_start_and_keeps_the_process() {
    let mut state: Lifecycle<u32> = Lifecycle::new();
    start_sidecar(&mut state, || Ok::<u32, SpawnError>(8)).ok().unwrap();
    let wait = HealthWait::new(2000, 500);
    let (action, attempts, _) = drive_wait(2000, 500, |_| answer(false));
    assert_eq!(attempts, 4);
    match finish_start(&wait, action) {
        Err(SupervisorError::HealthTimeout { timeout_secs }) => assert_eq!(timeout_secs, 2),
        _ => panic!("expected a health timeout"),
    }
    assert!(state.is_running());
    assert!(state.has_handle());
}

#[test]
fn ready_wait_completes_the_start() {
    let (action, attempts, _) = drive_wait(2000, 500, |made| answer(made >= 2));
    assert_eq!(attempts, 3);
    assert!(finish_start(&HealthWait::new(2000, 500), action).is_ok());
    let standard = HealthWait::standard();
    match finish_start(&standard, WaitAction::TimedOut) {
        Err(SupervisorError::HealthTimeout { timeout_secs }) => assert_eq!(timeout_secs, 30),
        _ => panic!("expected a health timeout"),
    }
}
