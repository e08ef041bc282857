use vstd::prelude::*;
use crate::platform::Platform;
use crate::responses::{CoreControlResponse, CoreStatusResponse};
use crate::textfmt::{dec_str, u32_to_string};

verus! {

/// What one non-blocking liveness probe on the tracked process reported.
#[derive(Clone, Copy, PartialEq, Eq, Structural, Debug)]
pub enum ProbeOutcome {
    /// The process has terminated and its exit status was collected.
    Exited,
    /// The process is still alive.
    Alive,
    /// The probe itself failed.
    ProbeFailed,
}

/// What one attempt to spawn the Core executable produced.
pub enum SpawnOutcome {
    /// A new process, with its identifier.
    Spawned(u32),
    /// No process; the cause of the failure.
    SpawnFailed(String),
}

/// What one attempt to send the termination signal produced.
pub enum KillOutcome {
    /// The signal was delivered and the process was reaped.
    Killed,
    /// The signal could not be delivered; the cause.
    KillFailed(String),
}

/// What Start decides to do once the slot has been examined.
pub enum StartAction {
    /// A live process is already tracked: reuse it, with its identifier.
    AlreadyRunning(u32),
    /// Nothing live is tracked: a new process must be spawned.
    SpawnNew,
    /// The Core executable is absent: fail with this report.
    MissingExecutable(String),
}

/// How one liveness probe changes the slot: an empty slot stays empty; a
/// tracked process stays tracked while the probe says it is alive, and is
/// cleared when it has exited or when the probe itself failed (the
/// pessimistic reading). Returns the new slot, whether the process runs,
/// and the identifier to report.
pub open spec fn status_transition(slot: Option<u32>, probe: ProbeOutcome) -> (
    Option<u32>,
    bool,
    Option<u32>,
) {
    match slot {
        Option::None => (Option::None, false, Option::None),
        Option::Some(pid) => match probe {
            ProbeOutcome::Alive => (Option::Some(pid), true, Option::Some(pid)),
            _ => (Option::None, false, Option::None),
        },
    }
}

/// How Stop changes the slot: an empty slot is success at once; a tracked
/// process leaves the slot exactly when the kill was delivered, and stays
/// tracked when it was not. Returns the new slot and whether Stop succeeded.
pub open spec fn stop_transition(slot: Option<u32>, kill_delivered: bool) -> (Option<u32>, bool) {
    match slot {
        Option::None => (Option::None, true),
        Option::Some(_) => if kill_delivered {
            (Option::None, true)
        } else {
            (slot, false)
        },
    }
}

/// Report text when the Core executable is not beside the frontend.
pub open spec fn missing_exe_text(path: Seq<char>) -> Seq<char> {
    "ConnectToolCore not found at: "@ + path
}

/// Report text when spawning the Core executable failed.
pub open spec fn spawn_failed_text(cause: Seq<char>) -> Seq<char> {
    "Failed to start ConnectToolCore: "@ + cause
}

/// Report text when the termination signal could not be delivered.
pub open spec fn kill_failed_text(cause: Seq<char>) -> Seq<char> {
    "Failed to kill ConnectToolCore: "@ + cause
}

/// Report text for a live tracked process.
pub open spec fn running_status_text(pid: u32) -> Seq<char> {
    "ConnectToolCore is running (PID: "@ + dec_str(pid as nat) + ")"@
}

/// The supervisor slot: the single storage location that tracks at most one
/// Core process, by identifier. The callers serialize access to it; every
/// operation here is one whole critical section over the slot.
pub struct Supervisor {
    slot: Option<u32>,
}

impl View for Supervisor {
    type V = Option<u32>;

    /// The identifier of the tracked process, if one is tracked.
    closed spec fn view(&self) -> Option<u32> {
        self.slot
    }
}

impl Supervisor {
    /// A fresh supervisor tracks nothing.
    pub fn new() -> (s: Supervisor)
        ensures
            s@ is None,
    {
        Supervisor { slot: Option::None }
    }

    /// The identifier of the tracked process, if any; tells the caller
    /// whether there is a process to probe or to signal.
    pub fn tracked_pid(&self) -> (r: Option<u32>)
        ensures
            r == self@,
    {
        self.slot
    }

    /// The liveness check behind Status: applies one probe result to the
    /// slot and reports (running, identifier). When nothing is tracked the
    /// probe is irrelevant and the report is (false, None).
    pub fn check_core_process_running(&mut self, probe: ProbeOutcome) -> (r: (bool, Option<u32>))
        ensures
            ({
                let (slot2, running, pid) = status_transition(old(self)@, probe);
                final(self)@ == slot2 && r.0 == running && r.1 == pid
            }),
    {
        match self.slot {
            Option::None => (false, Option::None),
            Option::Some(pid) => match probe {
                ProbeOutcome::Alive => (true, Option::Some(pid)),
                _ => {
                    self.slot = Option::None;
                    (false, Option::None)
                },
            },
        }
    }

    /// The decision half of Start. Given whether the Core executable is
    /// present and what a probe of the tracked process reported, it decides:
    /// fail when the executable is absent; reuse the tracked process while
    /// it is alive (Start is idempotent); otherwise clear the slot and ask
    /// for a spawn. A spawn is asked for only when the slot has been left
    /// empty, so a live process is never displaced.
    pub fn start_core_plan(&mut self, exe_path: &str, exe_exists: bool, probe: ProbeOutcome) -> (r:
        StartAction)
        ensures
            !exe_exists ==> final(self)@ == old(self)@ && (r matches StartAction::MissingExecutable(
                m,
            ) && m@ == missing_exe_text(exe_path@)),
            exe_exists ==> ({
                let (slot2, running, pid) = status_transition(old(self)@, probe);
                final(self)@ == slot2 && (if running {
                    pid matches Some(p) && r == StartAction::AlreadyRunning(p)
                } else {
                    slot2 is None && r == StartAction::SpawnNew
                })
            }),
    {
        if !exe_exists {
            let mut m = String::from_str("ConnectToolCore not found at: ");
            m.append(exe_path);
            return StartAction::MissingExecutable(m);
        }
        let (running, pid) = self.check_core_process_running(probe);
        if running {
            match pid {
                Option::Some(p) => StartAction::AlreadyRunning(p),
                Option::None => StartAction::SpawnNew,  // unreachable: running implies an identifier
            }
        } else {
            StartAction::SpawnNew
        }
    }

    /// The commit half of Start: records what the spawn attempt produced.
    /// It may only be called for a slot that the plan left empty.
    pub fn start_core_commit(&mut self, spawn: SpawnOutcome) -> (r: Result<
        (bool, Option<u32>),
        String,
    >)
        requires
            old(self)@ is None,
        ensures
            spawn matches SpawnOutcome::Spawned(pid) ==> final(self)@ == Some(pid) && r == Ok::<
                (bool, Option<u32>),
                String,
            >((true, Some(pid))),
            spawn matches SpawnOutcome::SpawnFailed(e) ==> final(self)@ is None && (
            r matches Err(m) && m@ == spawn_failed_text(e@)),
    {
        match spawn {
            SpawnOutcome::Spawned(pid) => {
                self.slot = Option::Some(pid);
                Ok((true, Option::Some(pid)))
            },
            SpawnOutcome::SpawnFailed(e) => {
                let mut m = String::from_str("Failed to start ConnectToolCore: ");
                m.append(e.as_str());
                Err(m)
            },
        }
    }

    /// Stop: an empty slot is success at once (Stop is idempotent); a
    /// tracked process is cleared exactly when the termination signal was
    /// delivered, and on failure the slot is kept and the cause reported.
    pub fn stop_core_process(&mut self, kill: KillOutcome) -> (r: Result<(), String>)
        ensures
            ({
                let (slot2, ok) = stop_transition(old(self)@, kill is Killed);
                final(self)@ == slot2 && ok == (r is Ok)
            }),
            old(self)@ is Some ==> (kill matches KillOutcome::KillFailed(e) ==> (r matches Err(m)
                && m@ == kill_failed_text(e@))),
    {
        match self.slot {
            Option::None => Ok(()),
            Option::Some(_) => match kill {
                KillOutcome::Killed => {
                    self.slot = Option::None;
                    Ok(())
                },
                KillOutcome::KillFailed(e) => {
                    let mut m = String::from_str("Failed to kill ConnectToolCore: ");
                    m.append(e.as_str());
                    Err(m)
                },
            },
        }
    }

    /// Status as reported to the caller: the probe applied to the slot,
    /// rendered as a response with the identifier spelled into the text.
    pub fn get_core_status(&mut self, probe: ProbeOutcome) -> (r: CoreStatusResponse)
        ensures
            ({
                let (slot2, running, pid) = status_transition(old(self)@, probe);
                final(self)@ == slot2 && r.is_running == running && r.pid == pid
            }),
            r.is_running ==> (r.pid matches Some(p) && r.message@ == running_status_text(p)),
            !r.is_running ==> r.message@ == "ConnectToolCore is not running"@,
    {
        let (is_running, pid) = self.check_core_process_running(probe);
        if is_running {
            let mut m = String::from_str("ConnectToolCore is running (PID: ");
            let p: u32 = match pid {
                Option::Some(p) => p,
                Option::None => 0,  // unreachable: running implies an identifier
            };
            let digits = u32_to_string(p);
            m.append(digits.as_str());
            m.append(")");
            CoreStatusResponse { is_running, pid, message: m }
        } else {
            CoreStatusResponse {
                is_running,
                pid,
                message: String::from_str("ConnectToolCore is not running"),
            }
        }
    }
}

/// Folds a plan that needs no spawn into Start's result: a reused process
/// reports success with its identifier, a missing executable reports its
/// text as the error, and only a plan that asks for a spawn is left open.
pub fn start_action_result(action: StartAction) -> (r: Option<Result<(bool, Option<u32>), String>>)
    ensures
        action matches StartAction::AlreadyRunning(p) ==> r == Some(
            Ok::<(bool, Option<u32>), String>((true, Some(p))),
        ),
        action matches StartAction::MissingExecutable(m) ==> (r matches Some(res) && (
        res matches Err(e) && e == m)),
        action is SpawnNew ==> r is None,
{
    match action {
        StartAction::AlreadyRunning(p) => Some(Ok((true, Option::Some(p)))),
        StartAction::MissingExecutable(m) => Some(Err(m)),
        StartAction::SpawnNew => Option::None,
    }
}

/// Start's outcome rendered for the caller: success keeps the reported
/// liveness and identifier; failure carries the cause as the message.
pub fn start_core(result: Result<(bool, Option<u32>), String>) -> (r: CoreControlResponse)
    ensures
        result matches Ok((running, pid)) ==> r.success && r.is_running == running && r.pid == pid
            && r.message@ == "ConnectToolCore started successfully"@,
        result matches Err(e) ==> !r.success && !r.is_running && r.pid is None && r.message == e,
{
    match result {
        Ok((is_running, pid)) => CoreControlResponse {
            success: true,
            is_running,
            pid,
            message: String::from_str("ConnectToolCore started successfully"),
        },
        Err(e) => CoreControlResponse {
            success: false,
            is_running: false,
            pid: Option::None,
            message: e,
        },
    }
}

/// Stop's outcome rendered for the caller. On failure the process is
/// reported still running, since the signal was not delivered.
pub fn stop_core(result: Result<(), String>) -> (r: CoreControlResponse)
    ensures
        result is Ok ==> r.success && !r.is_running && r.pid is None && r.message@
            == "ConnectToolCore stopped successfully"@,
        result matches Err(e) ==> !r.success && r.is_running && r.pid is None && r.message == e,
{
    match result {
        Ok(()) => CoreControlResponse {
            success: true,
            is_running: false,
            pid: Option::None,
            message: String::from_str("ConnectToolCore stopped successfully"),
        },
        Err(e) => CoreControlResponse {
            success: false,
            is_running: true,
            pid: Option::None,
            message: e,
        },
    }
}

/// The conventional name of the Core binary on each platform.
pub open spec fn core_binary_name(platform: Platform) -> Seq<char> {
    if platform is Windows {
        "ConnectToolCore.exe"@
    } else {
        "ConnectToolCore"@
    }
}

/// Each platform's path separator.
pub open spec fn path_separator(platform: Platform) -> Seq<char> {
    if platform is Windows {
        "\\"@
    } else {
        "/"@
    }
}

/// Resolves where the Core binary is expected: in the directory that holds
/// the frontend's own executable, under the platform's conventional name.
pub fn get_core_executable_path(exe_dir: &str, platform: Platform) -> (r: String)
    ensures
        r@ == exe_dir@ + path_separator(platform) + core_binary_name(platform),
{
    let mut p = String::from_str(exe_dir);
    match platform {
        Platform::Windows => {
            p.append("\\");
            p.append("ConnectToolCore.exe");
        },
        Platform::MacOs => {
            p.append("/");
            p.append("ConnectToolCore");
        },
        Platform::Linux => {
            p.append("/");
            p.append("ConnectToolCore");
        },
    }
    p
}

/// The resolved Core path is adjacent to the frontend's executable: it
/// begins with the frontend's own directory followed by the separator, and
/// it ends in the platform's conventional binary name.
pub proof fn lemma_core_path_adjacent(exe_dir: Seq<char>, platform: Platform)
    ensures
        ({
            let full = exe_dir + path_separator(platform) + core_binary_name(platform);
            full.take(exe_dir.len() as int) == exe_dir && full.skip(
                (full.len() - core_binary_name(platform).len()) as int,
            ) == core_binary_name(platform)
        }),
{
    let full = exe_dir + path_separator(platform) + core_binary_name(platform);
    assert(full.take(exe_dir.len() as int) =~= exe_dir);
    assert(full.skip((full.len() - core_binary_name(platform).len()) as int) =~= core_binary_name(
        platform,
    ));
}

/// Starting twice while the process is alive returns the same identifier
/// both times and leaves the same single process tracked: one live tracked
/// process absorbs every further Start.
pub proof fn lemma_start_idempotent(slot: Option<u32>, p: u32)
    requires
        slot == Some(p),
    ensures
        ({
            let (s1, running1, pid1) = status_transition(slot, ProbeOutcome::Alive);
            let (s2, running2, pid2) = status_transition(s1, ProbeOutcome::Alive);
            running1 && pid1 == Some(p) && s1 == slot && running2 && pid2 == pid1 && s2 == s1
        }),
{
}

/// Stopping when nothing is tracked succeeds trivially, and repeating it
/// changes nothing: an empty slot absorbs every Stop, whatever the kill
/// outcome would have been.
pub proof fn lemma_stop_idempotent(kill_first: bool, kill_second: bool)
    ensures
        ({
            let (s1, ok1) = stop_transition(Option::None, kill_first);
            let (s2, ok2) = stop_transition(s1, kill_second);
            ok1 && ok2 && s1 is None && s2 is None
        }),
{
}

/// If the tracked process terminates on its own, the Status that observes
/// it reports not-running and clears the slot, and every later Status keeps
/// reporting not-running with no identifier: no stale identifier survives.
pub proof fn lemma_external_exit_detected(slot: Option<u32>, later_probe: ProbeOutcome)
    requires
        slot is Some,
    ensures
        ({
            let (s1, running1, pid1) = status_transition(slot, ProbeOutcome::Exited);
            let (s2, running2, pid2) = status_transition(s1, later_probe);
            !running1 && pid1 is None && s1 is None && !running2 && pid2 is None && s2 is None
        }),
{
}

/// The slot never comes to reference a second process behind the first:
/// Status and Stop only keep the tracked identifier or clear it, never
/// install another, and Start commits a spawn only into an empty slot
/// (`start_core_commit` demands it). Serializing the operations is the
/// caller's lock; under it, no interleaving tracks two spawned processes.
pub proof fn lemma_no_second_process(slot: Option<u32>, probe: ProbeOutcome, kill_delivered: bool)
    ensures
        ({
            let (s2, _, _) = status_transition(slot, probe);
            s2 == slot || s2 is None
        }),
        ({
            let (s2, _) = stop_transition(slot, kill_delivered);
            s2 == slot || s2 is None
        }),
{
}

} // verus!
