use connect_bridge::platform::Platform;
use connect_bridge::supervisor::{
    start_action_result, start_core, stop_core, get_core_executable_path, KillOutcome,
    ProbeOutcome, SpawnOutcome, StartAction, Supervisor,
};

#[test]
fn start_spawns_when_nothing_tracked() {
    let mut sup = Supervisor::new();
    assert_eq!(sup.tracked_pid(), None);
    let action = sup.start_core_plan("/opt/app/ConnectToolCore", true, ProbeOutcome::Exited);
    assert!(matches!(action, StartAction::SpawnNew));
    assert!(start_action_result(action).is_none());
    let result = sup.start_core_commit(SpawnOutcome::Spawned(4242));
    assert_eq!(result, Ok((true, Some(4242))));
    let resp = start_core(result);
    assert!(resp.success);
    assert!(resp.is_running);
    assert_eq!(resp.pid, Some(4242));
    assert_eq!(resp.message, "ConnectToolCore started successfully");
    assert_eq!(sup.tracked_pid(), Some(4242));
}

#[test]
fn start_twice_returns_same_pid() {
    let mut sup = Supervisor::new();
    let action = sup.start_core_plan("/opt/app/ConnectToolCore", true, ProbeOutcome::Exited);
    assert!(matches!(action, StartAction::SpawnNew));
    let first = sup.start_core_commit(SpawnOutcome::Spawned(4242));
    assert_eq!(first, Ok((true, Some(4242))));
    // The process is still alive: a second Start reuses it and spawns nothing.
    let again = sup.start_core_plan("/opt/app/ConnectToolCore", true, ProbeOutcome::Alive);
    match again {
        StartAction::AlreadyRunning(pid) => assert_eq!(pid, 4242),
        _ => panic!("second start should reuse the live process"),
    }
    let folded = start_action_result(again);
    assert_eq!(folded, Some(Ok((true, Some(4242)))));
    let resp = start_core(folded.unwrap());
    assert!(resp.success);
    assert!(resp.is_running);
    assert_eq!(resp.pid, Some(4242));
    assert_eq!(sup.tracked_pid(), Some(4242));
}

#[test]
fn external_exit_clears_slot_on_status() {
    let mut sup = Supervisor::new();
    let _ = sup.start_core_plan("/opt/app/ConnectToolCore", true, ProbeOutcome::Exited);
    let _ = sup.start_core_commit(SpawnOutcome::Spawned(907));
    // The process died on its own: the next Status sees the exit.
    let resp = sup.get_core_status(ProbeOutcome::Exited);
    assert!(!resp.is_running);
    assert_eq!(resp.pid, None);
    assert_eq!(resp.message, "ConnectToolCore is not running");
    assert_eq!(sup.tracked_pid(), None);
    // No stale identifier afterwards.
    let again = sup.get_core_status(ProbeOutcome::Alive);
    assert!(!again.is_running);
    assert_eq!(again.pid, None);
}

#[test]
fn stop_with_empty_slot_succeeds() {
    let mut sup = Supervisor::new();
    let result = sup.stop_core_process(KillOutcome::Killed);
    assert_eq!(result, Ok(()));
    let resp = stop_core(result);
    assert!(resp.success);
    assert!(!resp.is_running);
    assert_eq!(resp.pid, None);
    assert_eq!(resp.message, "ConnectToolCore stopped successfully");
}

#[test]
fn stop_clears_tracked_process() {
    let mut sup = Supervisor::new();
    let _ = sup.start_core_plan("/opt/app/ConnectToolCore", true, ProbeOutcome::Exited);
    let _ = sup.start_core_commit(SpawnOutcome::Spawned(11));
    let result = sup.stop_core_process(KillOutcome::Killed);
    assert_eq!(result, Ok(()));
    assert_eq!(sup.tracked_pid(), None);
}

#[test]
fn stop_kill_failure_keeps_slot() {
    let mut sup = Supervisor::new();
    let _ = sup.start_core_plan("/opt/app/ConnectToolCore", true, ProbeOutcome::Exited);
    let _ = sup.start_core_commit(SpawnOutcome::Spawned(11));
    let result = sup.stop_core_process(KillOutcome::KillFailed(String::from("nope")));
    assert_eq!(result, Err(String::from("Failed to kill ConnectToolCore: nope")));
    assert_eq!(sup.tracked_pid(), Some(11));
    let resp = stop_core(result);
    assert!(!resp.success);
    assert!(resp.is_running);
    assert_eq!(resp.pid, None);
}

#[test]
fn status_probe_error_reports_not_running() {
    let mut sup = Supervisor::new();
    let _ = sup.start_core_plan("/opt/app/ConnectToolCore", true, ProbeOutcome::Exited);
    let _ = sup.start_core_commit(SpawnOutcome::Spawned(5));
    let (running, pid) = sup.check_core_process_running(ProbeOutcome::ProbeFailed);
    assert!(!running);
    assert_eq!(pid, None);
    assert_eq!(sup.tracked_pid(), None);
}

#[test]
fn status_message_carries_pid() {
    let mut sup = Supervisor::new();
    let _ = sup.start_core_plan("/opt/app/ConnectToolCore", true, ProbeOutcome::Exited);
    let _ = sup.start_core_commit(SpawnOutcome::Spawned(907));
    let resp = sup.get_core_status(ProbeOutcome::Alive);
    assert!(resp.is_running);
    assert_eq!(resp.pid, Some(907));
    assert_eq!(resp.message, "ConnectToolCore is running (PID: 907)");
}

#[test]
fn start_missing_executable_reports_path() {
    let mut sup = Supervisor::new();
    let action = sup.start_core_plan("/opt/app/ConnectToolCore", false, ProbeOutcome::Exited);
    match &action {
        StartAction::MissingExecutable(m) => {
            assert_eq!(m.as_str(), "ConnectToolCore not found at: /opt/app/ConnectToolCore");
        }
        _ => panic!("missing executable should fail the plan"),
    }
    let folded = start_action_result(action).unwrap();
    let resp = start_core(folded);
    assert!(!resp.success);
    assert!(!resp.is_running);
    assert_eq!(resp.pid, None);
    assert_eq!(resp.message, "ConnectToolCore not found at: /opt/app/ConnectToolCore");
}

#[test]
fn spawn_failure_reports_cause() {
    let mut sup = Supervisor::new();
    let result = sup.start_core_commit(SpawnOutcome::SpawnFailed(String::from("access denied")));
    assert_eq!(
        result,
        Err(String::from("Failed to start ConnectToolCore: access denied"))
    );
    assert_eq!(sup.tracked_pid(), None);
    let resp = start_core(result);
    assert!(!resp.success);
    assert!(!resp.is_running);
    assert_eq!(resp.message, "Failed to start ConnectToolCore: access denied");
}

#[test]
fn core_path_is_adjacent_with_platform_suffix() {
    assert_eq!(
        get_core_executable_path("/opt/frontend", Platform::Linux),
        "/opt/frontend/ConnectToolCore"
    );
    assert_eq!(
        get_core_executable_path("/Applications/Frontend", Platform::MacOs),
        "/Applications/Frontend/ConnectToolCore"
    );
    assert_eq!(
        get_core_executable_path("C:\\Apps\\Frontend", Platform::Windows),
        "C:\\Apps\\Frontend\\ConnectToolCore.exe"
    );
}
