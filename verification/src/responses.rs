use vstd::prelude::*;

verus! {

/// Answer to a request to locate the Steam installation.
#[derive(Debug)]
pub struct FindSteamPathResponse {
    pub found: bool,
    pub steam_path: Option<String>,
    pub steam_exe_path: Option<String>,
    pub message: String,
}

/// Answer to a request to restart Steam with the China launch flag.
#[derive(Debug)]
pub struct RestartSteamChinaResponse {
    pub success: bool,
    pub message: String,
}

/// Answer to a query for Steam's liveness.
#[derive(Debug)]
pub struct GetSteamStatusResponse {
    pub is_running: bool,
    pub process_id: Option<u32>,
}

/// Answer to a query for the host firewall profiles.
#[derive(Debug)]
pub struct FirewallStatusResponse {
    pub domain_enabled: bool,
    pub private_enabled: bool,
    pub public_enabled: bool,
    pub message: String,
}

/// Answer to a request to switch the host firewall on or off.
#[derive(Debug)]
pub struct FirewallToggleResponse {
    pub success: bool,
    pub message: String,
}

/// Answer to a query for the tracked Core process's liveness.
#[derive(Debug)]
pub struct CoreStatusResponse {
    pub is_running: bool,
    pub pid: Option<u32>,
    pub message: String,
}

/// Answer to a request to start or stop the Core process.
#[derive(Debug)]
pub struct CoreControlResponse {
    pub success: bool,
    pub is_running: bool,
    pub pid: Option<u32>,
    pub message: String,
}

} // verus!
