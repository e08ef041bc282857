use connect_bridge::platform::Platform;
use connect_bridge::procscan::{is_steam_running_unix, is_steam_running_windows, parse_u32_digits};
use connect_bridge::responses::RestartSteamChinaResponse;
use connect_bridge::steam::{
    find_steam, find_steam_path, get_steam_exe_path, get_steam_running_status, kill_steam_result,
    restart_steam_china_step, start_steam_china_result, steam_exe_candidates,
    steam_launch_command, windows_default_steam_dirs, KillCmdOutcome, LinuxSteamProbe,
    MacSteamProbe, RestartEvent, RestartStep, SteamProbe, WindowsSteamProbe,
};
use connect_bridge::textfmt::u32_to_string;

fn windows_probe_empty() -> WindowsSteamProbe {
    WindowsSteamProbe {
        hkcu_steam_path: None,
        hkcu_path_exists: false,
        hklm_install_path: None,
        hklm_path_exists: false,
        wow64_install_path: None,
        wow64_path_exists: false,
        default_dir_present: vec![false, false, false, false],
        default_dir_has_exe: vec![false, false, false, false],
    }
}

#[test]
fn windows_search_prefers_user_hive() {
    let mut probe = windows_probe_empty();
    probe.hkcu_steam_path = Some(String::from("C:\\Games\\Steam"));
    probe.hkcu_path_exists = true;
    probe.hklm_install_path = Some(String::from("C:\\Other\\Steam"));
    probe.hklm_path_exists = true;
    let found = find_steam_path(SteamProbe::Windows(probe));
    assert_eq!(found, Some(String::from("C:\\Games\\Steam")));
}

#[test]
fn windows_search_skips_registry_path_that_does_not_exist() {
    let mut probe = windows_probe_empty();
    probe.hkcu_steam_path = Some(String::from("C:\\Gone\\Steam"));
    probe.hkcu_path_exists = false;
    probe.wow64_install_path = Some(String::from("C:\\Wow\\Steam"));
    probe.wow64_path_exists = true;
    let found = find_steam_path(SteamProbe::Windows(probe));
    assert_eq!(found, Some(String::from("C:\\Wow\\Steam")));
}

#[test]
fn windows_search_falls_back_to_default_locations() {
    let mut probe = windows_probe_empty();
    // The second conventional location exists and holds steam.exe.
    probe.default_dir_present = vec![true, true, false, false];
    probe.default_dir_has_exe = vec![false, true, false, false];
    let found = find_steam_path(SteamProbe::Windows(probe));
    assert_eq!(found, Some(String::from("C:\\Program Files\\Steam")));
    assert_eq!(windows_default_steam_dirs().len(), 4);
}

#[test]
fn windows_search_with_nothing_found() {
    let found = find_steam_path(SteamProbe::Windows(windows_probe_empty()));
    assert_eq!(found, None);
}

#[test]
fn mac_search_prefers_query_result() {
    let probe = MacSteamProbe {
        mdfind_paths: vec![
            String::from("/Volumes/Games/Steam.app"),
            String::from("/Applications/Steam.app"),
        ],
        mdfind_present: vec![false, true],
        default_app_exists: true,
        home: Some(String::from("/Users/me")),
        home_app_exists: true,
    };
    let found = find_steam_path(SteamProbe::MacOs(probe));
    assert_eq!(found, Some(String::from("/Applications/Steam.app")));
}

#[test]
fn mac_search_uses_home_bundle_last() {
    let probe = MacSteamProbe {
        mdfind_paths: vec![],
        mdfind_present: vec![],
        default_app_exists: false,
        home: Some(String::from("/Users/me")),
        home_app_exists: true,
    };
    let found = find_steam_path(SteamProbe::MacOs(probe));
    assert_eq!(found, Some(String::from("/Users/me/Applications/Steam.app")));
}

#[test]
fn linux_search_prefers_link_target_directory() {
    let probe = LinuxSteamProbe {
        command_path: Some(String::from("/usr/bin/steam")),
        link_parent: Some(String::from("/usr/lib/steam-launcher")),
        home: Some(String::from("/home/me")),
        candidate_present: vec![true, true, true, true, true],
    };
    let found = find_steam_path(SteamProbe::Linux(probe));
    assert_eq!(found, Some(String::from("/usr/lib/steam-launcher")));
}

#[test]
fn linux_search_falls_back_to_home_candidates() {
    let probe = LinuxSteamProbe {
        command_path: None,
        link_parent: None,
        home: Some(String::from("/home/me")),
        candidate_present: vec![false, true, false, false, false],
    };
    let found = find_steam_path(SteamProbe::Linux(probe));
    assert_eq!(found, Some(String::from("/home/me/.steam")));
}

#[test]
fn linux_search_without_home_finds_nothing() {
    let probe = LinuxSteamProbe {
        command_path: None,
        link_parent: None,
        home: None,
        candidate_present: vec![false, false, false, false, false],
    };
    assert_eq!(find_steam_path(SteamProbe::Linux(probe)), None);
}

#[test]
fn exe_candidates_per_platform() {
    let w = steam_exe_candidates(Platform::Windows, "C:\\Steam");
    assert_eq!(w, vec![String::from("C:\\Steam\\steam.exe")]);
    let m = steam_exe_candidates(Platform::MacOs, "/Applications/Steam.app");
    assert_eq!(
        m,
        vec![
            String::from("/Applications/Steam.app/Contents/MacOS/steam_osx"),
            String::from("/Applications/Steam.app/Contents/MacOS/Steam"),
        ]
    );
    let l = steam_exe_candidates(Platform::Linux, "/home/me/.steam/steam");
    assert_eq!(l.len(), 3);
    assert_eq!(l[0], "/home/me/.steam/steam");
    assert_eq!(l[1], "/home/me/.steam/steam/steam");
    assert_eq!(l[2], "/home/me/.steam/steam/steam.sh");
}

#[test]
fn exe_resolution_takes_first_present_candidate() {
    let marks = vec![false, true];
    let found = get_steam_exe_path(Platform::MacOs, "/Applications/Steam.app", &marks);
    assert_eq!(
        found,
        Some(String::from("/Applications/Steam.app/Contents/MacOS/Steam"))
    );
    let none = get_steam_exe_path(Platform::Windows, "C:\\Steam", &vec![false]);
    assert_eq!(none, None);
    // On Linux the installation path itself may be the executable.
    let own = get_steam_exe_path(Platform::Linux, "/usr/bin/steam", &vec![true, false, false]);
    assert_eq!(own, Some(String::from("/usr/bin/steam")));
}

#[test]
fn find_steam_response_messages() {
    let hit = find_steam(
        Some(String::from("/home/me/.steam")),
        Some(String::from("/home/me/.steam/steam")),
    );
    assert!(hit.found);
    assert_eq!(hit.steam_path, Some(String::from("/home/me/.steam")));
    assert_eq!(hit.steam_exe_path, Some(String::from("/home/me/.steam/steam")));
    assert_eq!(hit.message, "Steam found successfully");
    let miss = find_steam(None, None);
    assert!(!miss.found);
    assert_eq!(miss.steam_path, None);
    assert_eq!(miss.steam_exe_path, None);
    assert_eq!(miss.message, "Steam installation not found");
}

#[test]
fn steam_running_status_mirrors_probe() {
    let up = get_steam_running_status(Some(321));
    assert!(up.is_running);
    assert_eq!(up.process_id, Some(321));
    let down = get_steam_running_status(None);
    assert!(!down.is_running);
    assert_eq!(down.process_id, None);
}

#[test]
fn kill_result_accepts_exit_code_one_off_windows() {
    let ok = kill_steam_result(
        Platform::Linux,
        KillCmdOutcome::Exited { success: false, exit_code_one: true, stderr: String::new() },
    );
    assert_eq!(ok, Ok(()));
    let not_ok = kill_steam_result(
        Platform::Windows,
        KillCmdOutcome::Exited {
            success: false,
            exit_code_one: true,
            stderr: String::from("denied"),
        },
    );
    assert_eq!(not_ok, Err(String::from("Failed to kill Steam: denied")));
}

#[test]
fn kill_result_launch_failure_names_the_command() {
    let w = kill_steam_result(Platform::Windows, KillCmdOutcome::LaunchFailed(String::from("x")));
    assert_eq!(w, Err(String::from("Failed to execute taskkill: x")));
    let l = kill_steam_result(Platform::Linux, KillCmdOutcome::LaunchFailed(String::from("y")));
    assert_eq!(l, Err(String::from("Failed to execute pkill: y")));
}

#[test]
fn launch_command_per_platform() {
    let (prog, args) = steam_launch_command(Platform::Linux, "/usr/bin/steam");
    assert_eq!(prog, "/usr/bin/steam");
    assert_eq!(args, vec![String::from("-steamchina")]);
    let (prog, args) = steam_launch_command(
        Platform::MacOs,
        "/Applications/Steam.app/Contents/MacOS/steam_osx",
    );
    assert_eq!(prog, "open");
    assert_eq!(
        args,
        vec![
            String::from("-a"),
            String::from("/Applications/Steam.app/Contents/MacOS/steam_osx"),
            String::from("--args"),
            String::from("-steamchina"),
        ]
    );
}

#[test]
fn launch_result_wraps_spawn_error() {
    assert_eq!(start_steam_china_result(None), Ok(()));
    assert_eq!(
        start_steam_china_result(Some(String::from("exec format error"))),
        Err(String::from("Failed to start Steam: exec format error"))
    );
}

fn done_response(step: RestartStep) -> RestartSteamChinaResponse {
    match step {
        RestartStep::Done(resp) => resp,
        _ => panic!("walk should have finished"),
    }
}

#[test]
fn restart_walk_happy_path() {
    let step = RestartStep::FindPath;
    let step = restart_steam_china_step(
        step,
        RestartEvent::PathFound(Some(String::from("/home/me/.steam"))),
    );
    assert!(matches!(step, RestartStep::FindExe(_)));
    let step = restart_steam_china_step(
        step,
        RestartEvent::ExeFound(Some(String::from("/home/me/.steam/steam"))),
    );
    assert!(matches!(step, RestartStep::QueryRunning(_)));
    let step = restart_steam_china_step(step, RestartEvent::RunningStatus(true));
    assert!(matches!(step, RestartStep::Kill(_)));
    let step = restart_steam_china_step(step, RestartEvent::KillResult(Ok(())));
    assert!(matches!(step, RestartStep::Launch(_)));
    let step = restart_steam_china_step(step, RestartEvent::LaunchResult(Ok(())));
    let resp = done_response(step);
    assert!(resp.success);
    assert_eq!(resp.message, "Steam started with -steamchina parameter");
}

#[test]
fn restart_walk_skips_kill_when_not_running() {
    let step = RestartStep::QueryRunning(String::from("/usr/bin/steam"));
    let step = restart_steam_china_step(step, RestartEvent::RunningStatus(false));
    assert!(matches!(step, RestartStep::Launch(_)));
}

#[test]
fn restart_walk_failure_texts() {
    let miss = restart_steam_china_step(RestartStep::FindPath, RestartEvent::PathFound(None));
    let resp = done_response(miss);
    assert!(!resp.success);
    assert_eq!(resp.message, "Steam installation not found");

    let no_exe = restart_steam_china_step(
        RestartStep::FindExe(String::from("/home/me/.steam")),
        RestartEvent::ExeFound(None),
    );
    let resp = done_response(no_exe);
    assert!(!resp.success);
    assert_eq!(resp.message, "Steam executable not found");

    let kill_fail = restart_steam_china_step(
        RestartStep::Kill(String::from("/usr/bin/steam")),
        RestartEvent::KillResult(Err(String::from("Failed to kill Steam: denied"))),
    );
    let resp = done_response(kill_fail);
    assert!(!resp.success);
    assert_eq!(resp.message, "Failed to stop Steam: Failed to kill Steam: denied");

    let launch_fail = restart_steam_china_step(
        RestartStep::Launch(String::from("/usr/bin/steam")),
        RestartEvent::LaunchResult(Err(String::from("Failed to start Steam: busy"))),
    );
    let resp = done_response(launch_fail);
    assert!(!resp.success);
    assert_eq!(resp.message, "Failed to start Steam: busy");
}

#[test]
fn restart_walk_ignores_mismatched_event() {
    let step = RestartStep::FindPath;
    let step = restart_steam_china_step(step, RestartEvent::RunningStatus(true));
    assert!(matches!(step, RestartStep::FindPath));
}

#[test]
fn tasklist_listing_yields_first_matching_pid() {
    let out = b"\"steam.exe\",\"1234\",\"Console\",\"1\",\"100,000 K\"\r\n";
    assert_eq!(is_steam_running_windows(out), Some(1234));
}

#[test]
fn tasklist_listing_skips_unrelated_lines() {
    let out = b"\"other.exe\",\"77\",\"Console\",\"1\",\"5,000 K\"\r\n\"steam.exe\",\"4321\",\"Console\",\"1\",\"9 K\"\r\n";
    assert_eq!(is_steam_running_windows(out), Some(4321));
}

#[test]
fn tasklist_listing_without_match_yields_nothing() {
    assert_eq!(is_steam_running_windows(b""), None);
    assert_eq!(is_steam_running_windows(b"INFO: No tasks are running.\r\n"), None);
    // A matching name whose second field is not a number is passed over.
    let out = b"\"steam.exe\",\"x\"\r\n\"steam.exe\",\"88\"\r\n";
    assert_eq!(is_steam_running_windows(out), Some(88));
}

#[test]
fn pgrep_output_yields_first_pid() {
    assert_eq!(is_steam_running_unix(true, b"123\n456\n"), Some(123));
    assert_eq!(is_steam_running_unix(true, b"  321  \n"), Some(321));
    assert_eq!(is_steam_running_unix(true, b""), None);
    assert_eq!(is_steam_running_unix(false, b"123\n"), None);
    assert_eq!(is_steam_running_unix(true, b"abc\n"), None);
}

#[test]
fn digit_parsing_bounds() {
    assert_eq!(parse_u32_digits(b"0"), Some(0));
    assert_eq!(parse_u32_digits(b"4294967295"), Some(4294967295));
    assert_eq!(parse_u32_digits(b"4294967296"), None);
    assert_eq!(parse_u32_digits(b""), None);
    assert_eq!(parse_u32_digits(b"12a"), None);
}

#[test]
fn decimal_rendering() {
    assert_eq!(u32_to_string(0), "0");
    assert_eq!(u32_to_string(907), "907");
    assert_eq!(u32_to_string(4294967295), "4294967295");
}
