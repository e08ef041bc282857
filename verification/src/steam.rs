use vstd::prelude::*;
use crate::platform::Platform;
use crate::responses::{FindSteamPathResponse, GetSteamStatusResponse, RestartSteamChinaResponse};

verus! {

/// The views of a sequence of owned strings.
pub open spec fn views_of(paths: Seq<String>) -> Seq<Seq<char>> {
    paths.map_values(|p: String| p@)
}

/// The first of `paths` whose mark is set, walking both in step.
pub open spec fn first_marked(paths: Seq<Seq<char>>, marks: Seq<bool>) -> Option<Seq<char>>
    decreases paths.len(),
{
    if paths.len() == 0 || marks.len() == 0 {
        Option::None
    } else if marks[0] {
        Option::Some(paths[0])
    } else {
        first_marked(paths.skip(1), marks.skip(1))
    }
}

/// Picks the first path whose presence mark is set: the shared selection
/// step of every search that probes a fixed list of candidate locations.
pub fn first_existing_path(paths: Vec<String>, present: &Vec<bool>) -> (r: Option<String>)
    requires
        paths@.len() == present@.len(),
    ensures
        r matches Some(s) ==> first_marked(views_of(paths@), present@) == Some(s@),
        (r is None) == (first_marked(views_of(paths@), present@) is None),
{
    let n = paths.len();
    let mut i: usize = 0;
    proof {
        assert(views_of(paths@).skip(0) =~= views_of(paths@));
        assert(present@.skip(0) =~= present@);
    }
    while i < n
        invariant
            n == paths@.len(),
            paths@.len() == present@.len(),
            i <= n,
            first_marked(views_of(paths@), present@) == first_marked(
                views_of(paths@).skip(i as int),
                present@.skip(i as int),
            ),
        decreases n - i,
    {
        if present[i] {
            let s = paths[i].clone();
            proof {
                assert(views_of(paths@).skip(i as int)[0] == paths@[i as int]@);
            }
            return Some(s);
        }
        proof {
            assert(views_of(paths@).skip(i as int).skip(1) =~= views_of(paths@).skip(i as int + 1));
            assert(present@.skip(i as int).skip(1) =~= present@.skip(i as int + 1));
        }
        i += 1;
    }
    Option::None
}

/// The conventional Windows locations tried when the registry gives nothing.
pub open spec fn windows_default_dirs_spec() -> Seq<Seq<char>> {
    seq![
        "C:\\Program Files (x86)\\Steam"@,
        "C:\\Program Files\\Steam"@,
        "D:\\Steam"@,
        "D:\\Program Files (x86)\\Steam"@,
    ]
}

/// The conventional Windows locations, as owned strings for the caller to probe.
pub fn windows_default_steam_dirs() -> (r: Vec<String>)
    ensures
        views_of(r@) == windows_default_dirs_spec(),
{
    let mut v: Vec<String> = Vec::new();
    v.push(String::from_str("C:\\Program Files (x86)\\Steam"));
    v.push(String::from_str("C:\\Program Files\\Steam"));
    v.push(String::from_str("D:\\Steam"));
    v.push(String::from_str("D:\\Program Files (x86)\\Steam"));
    proof {
        assert(views_of(v@) =~= windows_default_dirs_spec());
    }
    v
}

/// What the Windows probes reported: the three registry readings, whether
/// each path they named exists, and for each conventional location whether
/// the directory exists and whether it holds steam.exe.
pub struct WindowsSteamProbe {
    pub hkcu_steam_path: Option<String>,
    pub hkcu_path_exists: bool,
    pub hklm_install_path: Option<String>,
    pub hklm_path_exists: bool,
    pub wow64_install_path: Option<String>,
    pub wow64_path_exists: bool,
    pub default_dir_present: Vec<bool>,
    pub default_dir_has_exe: Vec<bool>,
}

impl WindowsSteamProbe {
    /// The two mark lists walk the conventional locations in step.
    pub open spec fn wf(&self) -> bool {
        self.default_dir_present@.len() == windows_default_dirs_spec().len()
            && self.default_dir_has_exe@.len() == windows_default_dirs_spec().len()
    }
}

/// Pairwise conjunction of two mark lists.
pub open spec fn both_marks(a: Seq<bool>, b: Seq<bool>) -> Seq<bool> {
    Seq::new(if a.len() <= b.len() { a.len() } else { b.len() }, |i: int| a[i] && b[i])
}

/// Where the Windows search lands: the first registry reading whose path
/// exists, in the order user hive, machine hive, 32-bit machine hive; then
/// the first conventional location that exists and holds steam.exe.
pub open spec fn windows_steam_search(probe: WindowsSteamProbe) -> Option<Seq<char>> {
    if probe.hkcu_steam_path is Some && probe.hkcu_path_exists {
        Some(probe.hkcu_steam_path->0@)
    } else if probe.hklm_install_path is Some && probe.hklm_path_exists {
        Some(probe.hklm_install_path->0@)
    } else if probe.wow64_install_path is Some && probe.wow64_path_exists {
        Some(probe.wow64_install_path->0@)
    } else {
        first_marked(
            windows_default_dirs_spec(),
            both_marks(probe.default_dir_present@, probe.default_dir_has_exe@),
        )
    }
}

/// The Windows installation search over what the probes reported.
pub fn find_steam_path_windows(probe: WindowsSteamProbe) -> (r: Option<String>)
    requires
        probe.wf(),
    ensures
        r matches Some(s) ==> windows_steam_search(probe) == Some(s@),
        (r is None) == (windows_steam_search(probe) is None),
{
    if probe.hkcu_path_exists && probe.hkcu_steam_path.is_some() {
        return probe.hkcu_steam_path;
    }
    if probe.hklm_path_exists && probe.hklm_install_path.is_some() {
        return probe.hklm_install_path;
    }
    if probe.wow64_path_exists && probe.wow64_install_path.is_some() {
        return probe.wow64_install_path;
    }
    let dirs = windows_default_steam_dirs();
    let mut marks: Vec<bool> = Vec::new();
    let mut i: usize = 0;
    while i < 4
        invariant
            probe.wf(),
            i <= 4,
            marks@.len() == i,
            forall|j: int|
                0 <= j < i ==> marks@[j] == (probe.default_dir_present@[j]
                    && probe.default_dir_has_exe@[j]),
        decreases 4 - i,
    {
        marks.push(probe.default_dir_present[i] && probe.default_dir_has_exe[i]);
        i += 1;
    }
    proof {
        assert(marks@ =~= both_marks(probe.default_dir_present@, probe.default_dir_has_exe@));
    }
    first_existing_path(dirs, &marks)
}

/// What the macOS probes reported: the paths printed by the bundle query
/// with a presence mark for each, whether the conventional application
/// bundle exists, and the home directory with a mark for the bundle there.
pub struct MacSteamProbe {
    pub mdfind_paths: Vec<String>,
    pub mdfind_present: Vec<bool>,
    pub default_app_exists: bool,
    pub home: Option<String>,
    pub home_app_exists: bool,
}

impl MacSteamProbe {
    pub open spec fn wf(&self) -> bool {
        self.mdfind_paths@.len() == self.mdfind_present@.len()
    }
}

/// Where the macOS search lands: the first printed path that exists, then
/// the conventional bundle, then the one under the home directory.
pub open spec fn mac_steam_search(probe: MacSteamProbe) -> Option<Seq<char>> {
    if first_marked(views_of(probe.mdfind_paths@), probe.mdfind_present@) is Some {
        first_marked(views_of(probe.mdfind_paths@), probe.mdfind_present@)
    } else if probe.default_app_exists {
        Some("/Applications/Steam.app"@)
    } else if probe.home is Some && probe.home_app_exists {
        Some(probe.home->0@ + "/Applications/Steam.app"@)
    } else {
        Option::None
    }
}

/// The macOS installation search over what the probes reported.
pub fn find_steam_path_macos(probe: MacSteamProbe) -> (r: Option<String>)
    requires
        probe.wf(),
    ensures
        r matches Some(s) ==> mac_steam_search(probe) == Some(s@),
        (r is None) == (mac_steam_search(probe) is None),
{
    let from_query = first_existing_path(probe.mdfind_paths, &probe.mdfind_present);
    if from_query.is_some() {
        return from_query;
    }
    if probe.default_app_exists {
        return Some(String::from_str("/Applications/Steam.app"));
    }
    match probe.home {
        Option::Some(home) => {
            if probe.home_app_exists {
                let mut p = home;
                p.append("/Applications/Steam.app");
                Some(p)
            } else {
                Option::None
            }
        },
        Option::None => Option::None,
    }
}

/// The conventional Linux locations tried under a given home directory.
pub open spec fn linux_candidate_dirs_spec(home: Seq<char>) -> Seq<Seq<char>> {
    seq![
        home + "/.steam/steam"@,
        home + "/.steam"@,
        home + "/.local/share/Steam"@,
        "/usr/share/steam"@,
        "/usr/lib/steam"@,
    ]
}

/// The conventional Linux locations, as owned strings for the caller to probe.
pub fn linux_candidate_dirs(home: &str) -> (r: Vec<String>)
    ensures
        views_of(r@) == linux_candidate_dirs_spec(home@),
{
    let mut v: Vec<String> = Vec::new();
    let mut a = String::from_str(home);
    a.append("/.steam/steam");
    v.push(a);
    let mut b = String::from_str(home);
    b.append("/.steam");
    v.push(b);
    let mut c = String::from_str(home);
    c.append("/.local/share/Steam");
    v.push(c);
    v.push(String::from_str("/usr/share/steam"));
    v.push(String::from_str("/usr/lib/steam"));
    proof {
        assert(views_of(v@) =~= linux_candidate_dirs_spec(home@));
    }
    v
}

/// What the Linux probes reported: the resolved steam command (present only
/// where the lookup succeeded and the path exists), the parent directory of
/// its link target where the command is a symlink, the home directory, and
/// a presence mark for each conventional location.
pub struct LinuxSteamProbe {
    pub command_path: Option<String>,
    pub link_parent: Option<String>,
    pub home: Option<String>,
    pub candidate_present: Vec<bool>,
}

impl LinuxSteamProbe {
    pub open spec fn wf(&self) -> bool {
        self.candidate_present@.len() == 5
    }
}

/// Where the Linux search lands: the resolved command (preferring the link
/// target's directory), then, only where a home directory is known, the
/// first conventional location that exists.
pub open spec fn linux_steam_search(probe: LinuxSteamProbe) -> Option<Seq<char>> {
    if probe.command_path is Some {
        if probe.link_parent is Some {
            Some(probe.link_parent->0@)
        } else {
            Some(probe.command_path->0@)
        }
    } else if probe.home is Some {
        first_marked(linux_candidate_dirs_spec(probe.home->0@), probe.candidate_present@)
    } else {
        Option::None
    }
}

/// The Linux installation search over what the probes reported.
pub fn find_steam_path_linux(probe: LinuxSteamProbe) -> (r: Option<String>)
    requires
        probe.wf(),
    ensures
        r matches Some(s) ==> linux_steam_search(probe) == Some(s@),
        (r is None) == (linux_steam_search(probe) is None),
{
    if probe.command_path.is_some() {
        if probe.link_parent.is_some() {
            return probe.link_parent;
        }
        return probe.command_path;
    }
    match probe.home {
        Option::Some(home) => {
            let dirs = linux_candidate_dirs(home.as_str());
            first_existing_path(dirs, &probe.candidate_present)
        },
        Option::None => Option::None,
    }
}

/// What the platform's probes reported, tagged by platform.
pub enum SteamProbe {
    Windows(WindowsSteamProbe),
    MacOs(MacSteamProbe),
    Linux(LinuxSteamProbe),
}

impl SteamProbe {
    pub open spec fn wf(&self) -> bool {
        match self {
            SteamProbe::Windows(p) => p.wf(),
            SteamProbe::MacOs(p) => p.wf(),
            SteamProbe::Linux(p) => p.wf(),
        }
    }
}

/// Where the installation search lands on each platform.
pub open spec fn steam_search(probe: SteamProbe) -> Option<Seq<char>> {
    match probe {
        SteamProbe::Windows(p) => windows_steam_search(p),
        SteamProbe::MacOs(p) => mac_steam_search(p),
        SteamProbe::Linux(p) => linux_steam_search(p),
    }
}

/// The cross-platform installation search over what the probes reported.
pub fn find_steam_path(probe: SteamProbe) -> (r: Option<String>)
    requires
        probe.wf(),
    ensures
        r matches Some(s) ==> steam_search(probe) == Some(s@),
        (r is None) == (steam_search(probe) is None),
{
    match probe {
        SteamProbe::Windows(p) => find_steam_path_windows(p),
        SteamProbe::MacOs(p) => find_steam_path_macos(p),
        SteamProbe::Linux(p) => find_steam_path_linux(p),
    }
}

/// The locations where the Steam executable may sit inside an installation,
/// in the order they are tried. On Linux the installation path itself comes
/// first, for the case where the command resolved to the executable.
pub open spec fn steam_exe_candidates_spec(platform: Platform, steam_path: Seq<char>) -> Seq<
    Seq<char>,
> {
    match platform {
        Platform::Windows => seq![steam_path + "\\steam.exe"@],
        Platform::MacOs => seq![
            steam_path + "/Contents/MacOS/steam_osx"@,
            steam_path + "/Contents/MacOS/Steam"@,
        ],
        Platform::Linux => seq![steam_path, steam_path + "/steam"@, steam_path + "/steam.sh"@],
    }
}

/// The executable candidates, as owned strings for the caller to probe.
pub fn steam_exe_candidates(platform: Platform, steam_path: &str) -> (r: Vec<String>)
    ensures
        views_of(r@) == steam_exe_candidates_spec(platform, steam_path@),
{
    let mut v: Vec<String> = Vec::new();
    match platform {
        Platform::Windows => {
            let mut a = String::from_str(steam_path);
            a.append("\\steam.exe");
            v.push(a);
        },
        Platform::MacOs => {
            let mut a = String::from_str(steam_path);
            a.append("/Contents/MacOS/steam_osx");
            v.push(a);
            let mut b = String::from_str(steam_path);
            b.append("/Contents/MacOS/Steam");
            v.push(b);
        },
        Platform::Linux => {
            v.push(String::from_str(steam_path));
            let mut a = String::from_str(steam_path);
            a.append("/steam");
            v.push(a);
            let mut b = String::from_str(steam_path);
            b.append("/steam.sh");
            v.push(b);
        },
    }
    proof {
        assert(views_of(v@) =~= steam_exe_candidates_spec(platform, steam_path@));
    }
    v
}

/// Resolves the Steam executable inside an installation: the first
/// candidate whose presence mark is set. The marks walk
/// `steam_exe_candidates` in order; on Linux the first mark says whether
/// the installation path is itself a file.
pub fn get_steam_exe_path(platform: Platform, steam_path: &str, present: &Vec<bool>) -> (r: Option<
    String,
>)
    requires
        present@.len() == steam_exe_candidates_spec(platform, steam_path@).len(),
    ensures
        r matches Some(s) ==> first_marked(
            steam_exe_candidates_spec(platform, steam_path@),
            present@,
        ) == Some(s@),
        (r is None) == (first_marked(
            steam_exe_candidates_spec(platform, steam_path@),
            present@,
        ) is None),
{
    let cands = steam_exe_candidates(platform, steam_path);
    first_existing_path(cands, present)
}

/// The located installation rendered for the caller.
pub fn find_steam(steam_path: Option<String>, steam_exe_path: Option<String>) -> (r:
    FindSteamPathResponse)
    ensures
        steam_path is Some ==> r.found && r.steam_path == steam_path && r.steam_exe_path
            == steam_exe_path && r.message@ == "Steam found successfully"@,
        steam_path is None ==> !r.found && r.steam_path is None && r.steam_exe_path is None
            && r.message@ == "Steam installation not found"@,
{
    match steam_path {
        Option::Some(p) => FindSteamPathResponse {
            found: true,
            steam_path: Some(p),
            steam_exe_path,
            message: String::from_str("Steam found successfully"),
        },
        Option::None => FindSteamPathResponse {
            found: false,
            steam_path: Option::None,
            steam_exe_path: Option::None,
            message: String::from_str("Steam installation not found"),
        },
    }
}

/// What running the kill command produced: either the command could not be
/// launched, or it exited, with its success bit, whether its exit code was
/// one, and its error output.
pub enum KillCmdOutcome {
    LaunchFailed(String),
    Exited { success: bool, exit_code_one: bool, stderr: String },
}

/// Whether the kill command counts as having stopped Steam. Windows demands
/// a successful exit; elsewhere an exit code of one (no such process) is
/// success too, and the launch failure names the platform's kill command.
pub fn kill_steam_result(platform: Platform, outcome: KillCmdOutcome) -> (r: Result<(), String>)
    ensures
        outcome matches KillCmdOutcome::LaunchFailed(e) ==> (r matches Err(m) && (
        if platform is Windows {
            m@ == "Failed to execute taskkill: "@ + e@
        } else {
            m@ == "Failed to execute pkill: "@ + e@
        })),
        outcome matches KillCmdOutcome::Exited { success, exit_code_one, stderr } ==> ({
            let stopped = success || (!(platform is Windows) && exit_code_one);
            (stopped ==> r is Ok) && (!stopped ==> (r matches Err(m) && m@
                == "Failed to kill Steam: "@ + stderr@))
        }),
{
    match outcome {
        KillCmdOutcome::LaunchFailed(e) => {
            let mut m = match platform {
                Platform::Windows => String::from_str("Failed to execute taskkill: "),
                _ => String::from_str("Failed to execute pkill: "),
            };
            m.append(e.as_str());
            Err(m)
        },
        KillCmdOutcome::Exited { success, exit_code_one, stderr } => {
            let windows = match platform {
                Platform::Windows => true,
                _ => false,
            };
            if success || (!windows && exit_code_one) {
                Ok(())
            } else {
                let mut m = String::from_str("Failed to kill Steam: ");
                m.append(stderr.as_str());
                Err(m)
            }
        },
    }
}

/// The command and arguments that launch Steam with the China flag: the
/// executable itself with the flag, except on macOS, where the application
/// opener is asked to pass the flag through.
pub fn steam_launch_command(platform: Platform, steam_exe_path: &str) -> (r: (String, Vec<String>))
    ensures
        !(platform is MacOs) ==> r.0@ == steam_exe_path@ && views_of(r.1@) == seq!["-steamchina"@],
        platform is MacOs ==> r.0@ == "open"@ && views_of(r.1@) == seq![
            "-a"@,
            steam_exe_path@,
            "--args"@,
            "-steamchina"@,
        ],
{
    match platform {
        Platform::MacOs => {
            let mut args: Vec<String> = Vec::new();
            args.push(String::from_str("-a"));
            args.push(String::from_str(steam_exe_path));
            args.push(String::from_str("--args"));
            args.push(String::from_str("-steamchina"));
            proof {
                assert(views_of(args@) =~= seq![
                    "-a"@,
                    steam_exe_path@,
                    "--args"@,
                    "-steamchina"@,
                ]);
            }
            (String::from_str("open"), args)
        },
        _ => {
            let mut args: Vec<String> = Vec::new();
            args.push(String::from_str("-steamchina"));
            proof {
                assert(views_of(args@) =~= seq!["-steamchina"@]);
            }
            (String::from_str(steam_exe_path), args)
        },
    }
}

/// How a launch attempt is reported: a spawn error becomes the launch
/// failure text, anything else is success.
pub fn start_steam_china_result(spawn_error: Option<String>) -> (r: Result<(), String>)
    ensures
        spawn_error is None ==> r is Ok,
        spawn_error matches Some(e) ==> (r matches Err(m) && m@ == "Failed to start Steam: "@
            + e@),
{
    match spawn_error {
        Option::None => Ok(()),
        Option::Some(e) => {
            let mut m = String::from_str("Failed to start Steam: ");
            m.append(e.as_str());
            Err(m)
        },
    }
}

/// Where the restart of Steam stands: each state names the outside work the
/// caller must do next, and Done carries the answer.
pub enum RestartStep {
    /// Locate the installation.
    FindPath,
    /// Locate the executable inside the installation.
    FindExe(String),
    /// Ask whether Steam is currently running.
    QueryRunning(String),
    /// Stop the running instance.
    Kill(String),
    /// Launch the executable with the China flag.
    Launch(String),
    /// Finished, with the answer for the caller.
    Done(RestartSteamChinaResponse),
}

/// What the outside work reported back for one restart step.
pub enum RestartEvent {
    PathFound(Option<String>),
    ExeFound(Option<String>),
    RunningStatus(bool),
    KillResult(Result<(), String>),
    LaunchResult(Result<(), String>),
}

/// One step of the Steam restart: find the installation, find the
/// executable, stop a running instance, launch with the China flag. Each
/// failure ends the walk with success false and the failure's text; an
/// event that does not answer the pending step changes nothing.
pub fn restart_steam_china_step(step: RestartStep, event: RestartEvent) -> (r: RestartStep)
    ensures
        step is FindPath ==> (match event {
            RestartEvent::PathFound(found) => match found {
                Option::Some(p) => r == RestartStep::FindExe(p),
                Option::None => (r matches RestartStep::Done(resp) && !resp.success
                    && resp.message@ == "Steam installation not found"@),
            },
            _ => r == step,
        }),
        step matches RestartStep::FindExe(path) ==> (match event {
            RestartEvent::ExeFound(found) => match found {
                Option::Some(e) => r == RestartStep::QueryRunning(e),
                Option::None => (r matches RestartStep::Done(resp) && !resp.success
                    && resp.message@ == "Steam executable not found"@),
            },
            _ => r == step,
        }),
        step matches RestartStep::QueryRunning(exe) ==> (match event {
            RestartEvent::RunningStatus(running) => if running {
                r == RestartStep::Kill(exe)
            } else {
                r == RestartStep::Launch(exe)
            },
            _ => r == step,
        }),
        step matches RestartStep::Kill(exe) ==> (match event {
            RestartEvent::KillResult(res) => match res {
                Result::Ok(()) => r == RestartStep::Launch(exe),
                Result::Err(e) => (r matches RestartStep::Done(resp) && !resp.success
                    && resp.message@ == "Failed to stop Steam: "@ + e@),
            },
            _ => r == step,
        }),
        step matches RestartStep::Launch(exe) ==> (match event {
            RestartEvent::LaunchResult(res) => match res {
                Result::Ok(()) => (r matches RestartStep::Done(resp) && resp.success
                    && resp.message@ == "Steam started with -steamchina parameter"@),
                Result::Err(e) => (r matches RestartStep::Done(resp) && !resp.success
                    && resp.message == e),
            },
            _ => r == step,
        }),
        step is Done ==> r == step,
{
    match (step, event) {
        (RestartStep::FindPath, RestartEvent::PathFound(Option::Some(p))) => RestartStep::FindExe(
            p,
        ),
        (RestartStep::FindPath, RestartEvent::PathFound(Option::None)) => RestartStep::Done(
            RestartSteamChinaResponse {
                success: false,
                message: String::from_str("Steam installation not found"),
            },
        ),
        (RestartStep::FindExe(_), RestartEvent::ExeFound(Option::Some(e))) =>
            RestartStep::QueryRunning(e),
        (RestartStep::FindExe(_), RestartEvent::ExeFound(Option::None)) => RestartStep::Done(
            RestartSteamChinaResponse {
                success: false,
                message: String::from_str("Steam executable not found"),
            },
        ),
        (RestartStep::QueryRunning(exe), RestartEvent::RunningStatus(true)) => RestartStep::Kill(
            exe,
        ),
        (RestartStep::QueryRunning(exe), RestartEvent::RunningStatus(false)) =>
            RestartStep::Launch(exe),
        (RestartStep::Kill(exe), RestartEvent::KillResult(Result::Ok(()))) => RestartStep::Launch(
            exe,
        ),
        (RestartStep::Kill(_), RestartEvent::KillResult(Result::Err(e))) => {
            let mut m = String::from_str("Failed to stop Steam: ");
            m.append(e.as_str());
            RestartStep::Done(RestartSteamChinaResponse { success: false, message: m })
        },
        (RestartStep::Launch(_), RestartEvent::LaunchResult(Result::Ok(()))) => RestartStep::Done(
            RestartSteamChinaResponse {
                success: true,
                message: String::from_str("Steam started with -steamchina parameter"),
            },
        ),
        (RestartStep::Launch(_), RestartEvent::LaunchResult(Result::Err(e))) => RestartStep::Done(
            RestartSteamChinaResponse { success: false, message: e },
        ),
        (other, _) => other,
    }
}

/// Steam's liveness rendered for the caller: running exactly when a probe
/// found an identifier.
pub fn get_steam_running_status(pid: Option<u32>) -> (r: GetSteamStatusResponse)
    ensures
        r.is_running == (pid is Some),
        r.process_id == pid,
{
    GetSteamStatusResponse { is_running: pid.is_some(), process_id: pid }
}

} // verus!
