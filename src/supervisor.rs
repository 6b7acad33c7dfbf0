//! The supervisor's operations over the lifecycle state, the errors they
//! report, and the results handed to the host application.
use vstd::prelude::*;
use vstd::string::*;
use crate::config::{SIDECAR_NAME, SIDECAR_PORT, backend_url, decimal, loopback_address, push_decimal};
use crate::lifecycle::{Lifecycle, LifecycleEvent, LifecycleView};
use crate::probe::{HealthResponse, ProbeFailure, probe_ready, reports_ready};
use crate::readiness::{HealthWait, WaitAction};

verus! {

/// Where a spawn failed: resolving the executable, or launching it.
#[derive(PartialEq, Eq, Structural, Debug, Clone, Copy)]
pub enum SpawnStage {
    Resolve,
    Launch,
}

/// A failed spawn, with the environment's own description of the cause.
pub struct SpawnError {
    pub stage: SpawnStage,
    pub detail: String,
}

/// What a supervisor operation can report.
pub enum SupervisorError {
    /// The process could not be spawned; nothing runs.
    SpawnFailure(SpawnError),
    /// The process was spawned but did not become ready within the bound; it is
    /// left running.
    HealthTimeout { timeout_secs: u64 },
    /// The termination request was rejected; the state was cleared anyway.
    StopFailure(String),
}

/// Status of the service as handed to the host.
pub struct BackendStatus {
    pub running: bool,
    pub healthy: bool,
    pub url: String,
}

impl SupervisorError {
    /// The human-readable diagnostic, with the likely causes.
    pub open spec fn message_text(self) -> Seq<char> {
        match self {
            SupervisorError::SpawnFailure(e) => match e.stage {
                SpawnStage::Resolve => "Failed to create sidecar command: "@ + e.detail@
                    + ". The sidecar binary '"@ + SIDECAR_NAME@ + "' may be missing from the installation."@,
                SpawnStage::Launch => "Failed to start the backend service: "@ + e.detail@
                    + ". Possible causes: (1) The executable may be blocked by antivirus software, (2) Required system libraries may be missing, (3) The application may not have permission to run executables. Try running the application as administrator or check your antivirus settings."@,
            },
            SupervisorError::HealthTimeout { timeout_secs } => "Backend service failed to start within "@
                + decimal(timeout_secs as nat)
                + " seconds. The service may have crashed during startup. Check if port "@
                + decimal(SIDECAR_PORT as nat)
                + " is already in use by another application, or if there are missing dependencies (Python runtime, spaCy model)."@,
            SupervisorError::StopFailure(d) => "Failed to kill sidecar: "@ + d@,
        }
    }

    /// The diagnostic as text.
    pub fn message(&self) -> (r: String)
        ensures
            r@ == self.message_text(),
    {
        match self {
            SupervisorError::SpawnFailure(e) => match e.stage {
                SpawnStage::Resolve => {
                    let mut r = String::from_str("Failed to create sidecar command: ");
                    r.append(e.detail.as_str());
                    r.append(". The sidecar binary '");
                    r.append(SIDECAR_NAME);
                    r.append("' may be missing from the installation.");
                    r
                },
                SpawnStage::Launch => {
                    let mut r = String::from_str("Failed to start the backend service: ");
                    r.append(e.detail.as_str());
                    r.append(
                        ". Possible causes: (1) The executable may be blocked by antivirus software, (2) Required system libraries may be missing, (3) The application may not have permission to run executables. Try running the application as administrator or check your antivirus settings.",
                    );
                    r
                },
            },
            SupervisorError::HealthTimeout { timeout_secs } => {
                let mut r = String::from_str("Backend service failed to start within ");
                push_decimal(&mut r, *timeout_secs);
                r.append(" seconds. The service may have crashed during startup. Check if port ");
                push_decimal(&mut r, SIDECAR_PORT as u64);
                r.append(
                    " is already in use by another application, or if there are missing dependencies (Python runtime, spaCy model).",
                );
                r
            },
            SupervisorError::StopFailure(d) => {
                let mut r = String::from_str("Failed to kill sidecar: ");
                r.append(d.as_str());
                r
            },
        }
    }
}

/// The handle that a spawn's outcome gives the lifecycle, if any.
pub open spec fn spawned_handle<H>(res: Result<H, SpawnError>) -> Option<H> {
    match res {
        Ok(h) => Some(h),
        Err(_) => None,
    }
}

/// What a start reports for a spawn's outcome, before the readiness wait.
pub open spec fn spawn_outcome<H>(res: Result<H, SpawnError>) -> Result<(), SupervisorError> {
    match res {
        Ok(_) => Ok(()),
        Err(e) => Err(SupervisorError::SpawnFailure(e)),
    }
}

/// What a stop reports for the outcome of its termination request.
pub open spec fn kill_outcome(res: Result<(), String>) -> Result<(), SupervisorError> {
    match res {
        Ok(_) => Ok(()),
        Err(d) => Err(SupervisorError::StopFailure(d)),
    }
}

/// Whether `st` is the status for a lifecycle that reads `running` and a
/// probe with the outcome `probe`.
pub open spec fn status_reported(
    st: BackendStatus,
    running: bool,
    probe: Result<HealthResponse, ProbeFailure>,
) -> bool {
    &&& st.running == running
    &&& st.healthy == reports_ready(probe)
    &&& st.url@ == backend_url()
}

/// The spawning part of a start. While a process runs it returns at once and
/// `spawn` is not called. Otherwise it calls `spawn` once, records the handle
/// it yields, or reports its failure with the state left idle. The caller then
/// starts the output relay and the readiness wait.
pub fn start_sidecar<H, S>(state: &mut Lifecycle<H>, spawn: S) -> (r: Result<(), SupervisorError>)
    where
        S: FnOnce() -> Result<H, SpawnError>,
    requires
        !old(state)@.running ==> spawn.requires(()),
    ensures
        final(state)@.wf(),
        old(state)@.running ==> r is Ok && final(state)@ == old(state)@,
        !old(state)@.running ==> exists|res: Result<H, SpawnError>|
            #![auto]
            spawn.ensures((), res) && final(state)@ == old(state)@.step(
                LifecycleEvent::Start(spawned_handle(res)),
            ) && r == spawn_outcome(res),
{
    if state.is_running() {
        return Ok(());
    }
    let res = spawn();
    let ghost spawned = res;
    let r = match res {
        Ok(child) => {
            state.record_spawn(child);
            Ok(())
        },
        Err(e) => Err(SupervisorError::SpawnFailure(e)),
    };
    assert(spawn.ensures((), spawned) && state@ == old(state)@.step(
        LifecycleEvent::Start(spawned_handle(spawned)),
    ) && r == spawn_outcome(spawned));
    r
}

/// The result of a start once its readiness wait has ended: success when the
/// last probe reported the model loaded, `HealthTimeout` when the bound passed.
/// It takes no lifecycle state: a process that timed out is left running.
pub fn finish_start(wait: &HealthWait, last: WaitAction) -> (r: Result<(), SupervisorError>)
    requires
        last == WaitAction::Ready || last == WaitAction::TimedOut,
    ensures
        r is Ok <==> last == WaitAction::Ready,
        last == WaitAction::TimedOut ==> r == Err::<(), SupervisorError>(
            SupervisorError::HealthTimeout { timeout_secs: wait.timeout_ms / 1000 },
        ),
{
    match last {
        WaitAction::TimedOut => Err(
            SupervisorError::HealthTimeout { timeout_secs: wait.timeout_ms / 1000 },
        ),
        _ => Ok(()),
    }
}

/// A stop. With nothing running it does nothing and succeeds. Otherwise it takes
/// the handle out of the state, marks the process stopped, and hands the handle
/// to `kill` once; a rejected termination is reported, the state is cleared
/// regardless.
pub fn stop_sidecar<H, K>(state: &mut Lifecycle<H>, kill: K) -> (r: Result<(), SupervisorError>)
    where
        K: FnOnce(H) -> Result<(), String>,
    requires
        forall|h: H| kill.requires((h,)),
    ensures
        final(state)@ == old(state)@.step(LifecycleEvent::Stop),
        final(state)@.wf(),
        !final(state)@.running,
        match old(state)@.taken_by_stop() {
            None => r is Ok,
            Some(h) => exists|k: Result<(), String>|
                #![auto]
                kill.ensures((h,), k) && r == kill_outcome(k),
        },
{
    match state.take_for_stop() {
        None => Ok(()),
        Some(child) => {
            let ghost taken = child;
            let res = kill(child);
            let ghost killed = res;
            let r = match res {
                Ok(()) => Ok(()),
                Err(d) => Err(SupervisorError::StopFailure(d)),
            };
            assert(kill.ensures((taken,), killed) && r == kill_outcome(killed));
            r
        },
    }
}

/// What the output relay receives from the process.
#[derive(PartialEq, Eq, Structural, Debug, Clone, Copy)]
pub enum OutputEvent {
    Stdout,
    Stderr,
    Error,
    Terminated,
    Other,
}

/// What the output relay does with an event.
#[derive(PartialEq, Eq, Structural, Debug, Clone, Copy)]
pub enum RelayStep {
    /// Forward the line to the log, tagged as standard output.
    LogStdout,
    /// Forward the line (or error) to the log, tagged as standard error.
    LogStderr,
    /// The process is gone: stop consuming events.
    Finish,
    /// Nothing to do.
    Skip,
}

/// The relay's step for an event.
pub open spec fn relay_step(e: OutputEvent) -> RelayStep {
    match e {
        OutputEvent::Stdout => RelayStep::LogStdout,
        OutputEvent::Stderr => RelayStep::LogStderr,
        OutputEvent::Error => RelayStep::LogStderr,
        OutputEvent::Terminated => RelayStep::Finish,
        OutputEvent::Other => RelayStep::Skip,
    }
}

/// One event seen by the output relay. Termination marks the process stopped
/// (whether or not a stop already did) and ends the relay; other events leave
/// the state alone.
pub fn relay_event<H>(state: &mut Lifecycle<H>, event: OutputEvent) -> (r: RelayStep)
    ensures
        r == relay_step(event),
        final(state)@ == (if event == OutputEvent::Terminated {
            old(state)@.step(LifecycleEvent::Terminated)
        } else {
            old(state)@
        }),
{
    match event {
        OutputEvent::Stdout => RelayStep::LogStdout,
        OutputEvent::Stderr => RelayStep::LogStderr,
        OutputEvent::Error => RelayStep::LogStderr,
        OutputEvent::Terminated => {
            let _ = state.on_terminated();
            RelayStep::Finish
        },
        OutputEvent::Other => RelayStep::Skip,
    }
}

/// The base URL of the service.
pub fn get_backend_url() -> (r: String)
    ensures
        r@ == backend_url(),
{
    let mut r = String::from_str("http://");
    let authority = loopback_address();
    r.append(authority.as_str());
    r
}

/// The status a health check reports: the lifecycle's `running`, healthy only
/// when the probe answered with the model loaded. A failed probe is no error.
pub fn check_backend_health(running: bool, probe: &Result<HealthResponse, ProbeFailure>) -> (r:
    BackendStatus)
    ensures
        status_reported(r, running, *probe),
{
    BackendStatus { running, healthy: probe_ready(probe), url: get_backend_url() }
}

/// The host's result of a start: running and healthy on success, the
/// diagnostic otherwise.
pub fn start_backend(started: Result<(), SupervisorError>) -> (r: Result<BackendStatus, String>)
    ensures
        match started {
            Ok(_) => r is Ok && r->Ok_0.running && r->Ok_0.healthy && r->Ok_0.url@ == backend_url(),
            Err(e) => r is Err && r->Err_0@ == e.message_text(),
        },
{
    match started {
        Ok(()) => Ok(BackendStatus { running: true, healthy: true, url: get_backend_url() }),
        Err(e) => Err(e.message()),
    }
}

/// The host's result of a stop: the diagnostic of a failure.
pub fn stop_backend(stopped: Result<(), SupervisorError>) -> (r: Result<(), String>)
    ensures
        match stopped {
            Ok(_) => r is Ok,
            Err(e) => r is Err && r->Err_0@ == e.message_text(),
        },
{
    match stopped {
        Ok(()) => Ok(()),
        Err(e) => Err(e.message()),
    }
}

/// A stop with nothing running changes nothing and hands nothing to
/// termination (so `stop_sidecar` succeeds without calling `kill`).
pub proof fn lemma_stop_when_idle_is_noop<H>(s: LifecycleView<H>)
    requires
        s.wf(),
        !s.running,
    ensures
        s.step(LifecycleEvent::Stop) == s,
        s.taken_by_stop() is None,
{
}

/// Two stops, serialised by the lock as concurrent callers are, hand at most
/// one handle to termination: the first takes the one handle when a process
/// runs; the second finds nothing, so it terminates nothing and succeeds.
pub proof fn lemma_double_stop_terminates_once<H>(s: LifecycleView<H>)
    requires
        s.wf(),
    ensures
        s.running ==> s.taken_by_stop() is Some && s.taken_by_stop() == s.handle,
        s.step(LifecycleEvent::Stop).taken_by_stop() is None,
        s.step(LifecycleEvent::Stop).step(LifecycleEvent::Stop) == s.step(LifecycleEvent::Stop),
        !s.step(LifecycleEvent::Stop).running,
{
}

/// A process that ends on its own is reported as not running by the next
/// health check, with no stop in between, whatever the probe found.
pub proof fn lemma_crash_seen_without_stop<H>(
    s: LifecycleView<H>,
    probe: Result<HealthResponse, ProbeFailure>,
    st: BackendStatus,
)
    requires
        s.wf(),
        s.running,
        status_reported(st, s.step(LifecycleEvent::Terminated).running, probe),
    ensures
        !st.running,
        s.step(LifecycleEvent::Terminated).handle is None,
{
}

/// A failed probe (no reply, no body, a body that is no health answer) makes a
/// health check read unhealthy and leaves `running` as the lifecycle has it.
pub proof fn lemma_failed_probe_reads_unhealthy(
    running: bool,
    failure: ProbeFailure,
    st: BackendStatus,
)
    requires
        status_reported(st, running, Err(failure)),
    ensures
        !st.healthy,
        st.running == running,
{
}

} // verus!
