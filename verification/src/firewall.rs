use vstd::prelude::*;
use crate::responses::{FirewallStatusResponse, FirewallToggleResponse};

verus! {

/// One row of the management shell's JSON report, reduced to plain values:
/// the name field as a string where it was one, and the enabled field read
/// both as a boolean and as an integer, where it was either.
pub struct RawProfile {
    pub name: Option<String>,
    pub enabled_bool: Option<bool>,
    pub enabled_int: Option<i64>,
}

impl View for RawProfile {
    type V = (Option<Seq<char>>, Option<bool>, Option<i64>);

    open spec fn view(&self) -> (Option<Seq<char>>, Option<bool>, Option<i64>) {
        (
            match self.name {
                Option::Some(s) => Option::Some(s@),
                Option::None => Option::None,
            },
            self.enabled_bool,
            self.enabled_int,
        )
    }
}

/// The views of a sequence of rows.
pub open spec fn row_views(rows: Seq<RawProfile>) -> Seq<(Option<Seq<char>>, Option<bool>, Option<
    i64,
>)> {
    rows.map_values(|r: RawProfile| r@)
}

/// What parsing a report text yields: the rows of its top-level array, each
/// reduced to the two named fields, or the parse error's text. The result
/// depends on the text and the two keys alone.
pub uninterp spec fn firewall_profiles_of(
    s: Seq<char>,
    name_key: Seq<char>,
    enabled_key: Seq<char>,
) -> Result<Seq<(Option<Seq<char>>, Option<bool>, Option<i64>)>, Seq<char>>;

/// Relies on serde_json::from_str and serde_json::Value's accessors (get,
/// as_str, as_bool, as_i64). Each element of the top-level array becomes
/// one row: its `name_key` field read as a string, its `enabled_key` field
/// read as a bool and as an integer; a document without a top-level array
/// gives no rows; a text that does not parse gives the error's text.
#[verifier::external_body]
fn parse_profiles_json(s: &str, name_key: &str, enabled_key: &str) -> (r: Result<
    Vec<RawProfile>,
    String,
>)
    ensures
        r matches Ok(v) ==> (firewall_profiles_of(s@, name_key@, enabled_key@) matches Ok(rows)
            && row_views(v@) == rows),
        r matches Err(e) ==> (firewall_profiles_of(s@, name_key@, enabled_key@) matches Err(t)
            && e@ == t),
{
    let doc: serde_json::Value = match serde_json::from_str(s) {
        Ok(v) => v,
        Err(e) => return Err(e.to_string()),
    };
    let items = match doc { serde_json::Value::Array(a) => a, _ => Vec::new() };
    let mut rows: Vec<RawProfile> = Vec::new();
    for it in items.iter() {
        let name = it.get(name_key).and_then(serde_json::Value::as_str).map(String::from);
        let enabled_bool = it.get(enabled_key).and_then(serde_json::Value::as_bool);
        let enabled_int = it.get(enabled_key).and_then(serde_json::Value::as_i64);
        rows.push(RawProfile { name, enabled_bool, enabled_int });
    }
    Ok(rows)
}

/// How one row's enabled reading collapses to a flag: a boolean counts as
/// itself; otherwise a number counts as "not zero"; otherwise off.
pub open spec fn enabled_of(row: (Option<Seq<char>>, Option<bool>, Option<i64>)) -> bool {
    if row.1 is Some {
        row.1->0
    } else if row.2 is Some {
        row.2->0 != 0
    } else {
        false
    }
}

/// How one row changes the three flags: a row named Domain, Private or
/// Public overwrites that flag with its enabled reading; any other row
/// changes nothing.
pub open spec fn step_flags(
    row: (Option<Seq<char>>, Option<bool>, Option<i64>),
    flags: (bool, bool, bool),
) -> (bool, bool, bool) {
    if row.0 == Some("Domain"@) {
        (enabled_of(row), flags.1, flags.2)
    } else if row.0 == Some("Private"@) {
        (flags.0, enabled_of(row), flags.2)
    } else if row.0 == Some("Public"@) {
        (flags.0, flags.1, enabled_of(row))
    } else {
        flags
    }
}

/// The three flags after reading all rows in order, starting from `flags`.
pub open spec fn profile_flags(
    rows: Seq<(Option<Seq<char>>, Option<bool>, Option<i64>)>,
    flags: (bool, bool, bool),
) -> (bool, bool, bool)
    decreases rows.len(),
{
    if rows.len() == 0 {
        flags
    } else {
        profile_flags(rows.skip(1), step_flags(rows[0], flags))
    }
}

/// Reads the three profile flags out of the parsed rows, each flag off
/// unless a row of that name switched it.
fn read_profile_flags(rows: &Vec<RawProfile>) -> (r: (bool, bool, bool))
    ensures
        r == profile_flags(row_views(rows@), (false, false, false)),
{
    let domain_name = String::from_str("Domain");
    let private_name = String::from_str("Private");
    let public_name = String::from_str("Public");
    proof {
        reveal_strlit("Domain");
        reveal_strlit("Private");
        reveal_strlit("Public");
        assert("Domain"@.len() == 6);
        assert("Private"@.len() == 7);
        assert("Domain"@[0] == 'D');
        assert("Public"@[0] == 'P');
        assert("Private"@[0] == 'P');
        assert("Public"@[1] == 'u');
        assert("Private"@[1] == 'r');
        assert("Domain"@ != "Private"@);
        assert("Domain"@ != "Public"@);
        assert("Private"@ != "Public"@);
        assert(row_views(rows@).skip(0) =~= row_views(rows@));
    }
    let mut d: bool = false;
    let mut p: bool = false;
    let mut u: bool = false;
    let n = rows.len();
    let mut i: usize = 0;
    while i < n
        invariant
            n == rows@.len(),
            i <= n,
            domain_name@ == "Domain"@,
            private_name@ == "Private"@,
            public_name@ == "Public"@,
            "Domain"@ != "Private"@,
            "Domain"@ != "Public"@,
            "Private"@ != "Public"@,
            profile_flags(row_views(rows@), (false, false, false)) == profile_flags(
                row_views(rows@).skip(i as int),
                (d, p, u),
            ),
        decreases n - i,
    {
        let ghost pre = (d, p, u);
        let row = &rows[i];
        let e: bool = match row.enabled_bool {
            Option::Some(b) => b,
            Option::None => match row.enabled_int {
                Option::Some(v) => v != 0,
                Option::None => false,
            },
        };
        match &row.name {
            Option::Some(nm) => {
                if *nm == domain_name {
                    d = e;
                } else if *nm == private_name {
                    p = e;
                } else if *nm == public_name {
                    u = e;
                }
            },
            Option::None => {},
        }
        proof {
            assert(row_views(rows@).skip(i as int)[0] == rows@[i as int]@);
            assert((d, p, u) == step_flags(rows@[i as int]@, pre));
            assert(row_views(rows@).skip(i as int).skip(1) =~= row_views(rows@).skip(i as int + 1));
        }
        i += 1;
    }
    (d, p, u)
}

/// What running the management shell produced: it could not be launched, it
/// ran and failed with this error output, or it ran and printed this report.
pub enum ShellOutcome {
    LaunchFailed(String),
    Failed(String),
    Output(String),
}

/// The shell command whose output reports the three firewall profiles.
pub fn firewall_query_command() -> (r: String)
    ensures
        r@ == "Get-NetFirewallProfile | Select-Object -Property Name, Enabled | ConvertTo-Json"@,
{
    String::from_str(
        "Get-NetFirewallProfile | Select-Object -Property Name, Enabled | ConvertTo-Json",
    )
}

/// The firewall profiles as read from the management shell's report: a
/// launch or command failure is reported with its cause; otherwise the
/// report is parsed and each named profile's flag is taken from its row.
pub fn get_firewall_status_windows(outcome: ShellOutcome) -> (r: Result<
    FirewallStatusResponse,
    String,
>)
    ensures
        outcome matches ShellOutcome::LaunchFailed(e) ==> (r matches Err(m) && m@
            == "Failed to execute PowerShell: "@ + e@),
        outcome matches ShellOutcome::Failed(stderr) ==> (r matches Err(m) && m@
            == "PowerShell command failed: "@ + stderr@),
        outcome matches ShellOutcome::Output(out) ==> (match firewall_profiles_of(
            out@,
            "Name"@,
            "Enabled"@,
        ) {
            Result::Err(t) => (r matches Err(m) && m@ == "Failed to parse firewall status: "@ + t),
            Result::Ok(rows) => (r matches Ok(resp) && ({
                let flags = profile_flags(rows, (false, false, false));
                resp.domain_enabled == flags.0 && resp.private_enabled == flags.1
                    && resp.public_enabled == flags.2 && resp.message@
                    == "Firewall status retrieved successfully"@
            })),
        }),
{
    match outcome {
        ShellOutcome::LaunchFailed(e) => {
            let mut m = String::from_str("Failed to execute PowerShell: ");
            m.append(e.as_str());
            Err(m)
        },
        ShellOutcome::Failed(stderr) => {
            let mut m = String::from_str("PowerShell command failed: ");
            m.append(stderr.as_str());
            Err(m)
        },
        ShellOutcome::Output(out) => {
            let name_key = String::from_str("Name");
            let enabled_key = String::from_str("Enabled");
            match parse_profiles_json(out.as_str(), name_key.as_str(), enabled_key.as_str()) {
                Result::Err(e) => {
                    let mut m = String::from_str("Failed to parse firewall status: ");
                    m.append(e.as_str());
                    Err(m)
                },
                Result::Ok(rows) => {
                    let (domain_enabled, private_enabled, public_enabled) = read_profile_flags(
                        &rows,
                    );
                    Ok(
                        FirewallStatusResponse {
                            domain_enabled,
                            private_enabled,
                            public_enabled,
                            message: String::from_str("Firewall status retrieved successfully"),
                        },
                    )
                },
            }
        },
    }
}

/// The shell command that switches all three firewall profiles.
pub fn firewall_set_command(enabled: bool) -> (r: String)
    ensures
        enabled ==> r@ == "Set-NetFirewallProfile -Profile Domain,Public,Private -Enabled True"@,
        !enabled ==> r@ == "Set-NetFirewallProfile -Profile Domain,Public,Private -Enabled False"@,
{
    let mut c = String::from_str("Set-NetFirewallProfile -Profile Domain,Public,Private -Enabled ");
    if enabled {
        c.append("True");
    } else {
        c.append("False");
    }
    proof {
        reveal_strlit("Set-NetFirewallProfile -Profile Domain,Public,Private -Enabled ");
        reveal_strlit("True");
        reveal_strlit("False");
        reveal_strlit("Set-NetFirewallProfile -Profile Domain,Public,Private -Enabled True");
        reveal_strlit("Set-NetFirewallProfile -Profile Domain,Public,Private -Enabled False");
        if enabled {
            assert(c@ =~= "Set-NetFirewallProfile -Profile Domain,Public,Private -Enabled True"@);
        } else {
            assert(c@ =~= "Set-NetFirewallProfile -Profile Domain,Public,Private -Enabled False"@);
        }
    }
    c
}

/// The switch's outcome rendered for the caller: a launch failure or a
/// failed command is reported with its cause; success says which way the
/// firewall was switched.
pub fn set_firewall_status_windows(enabled: bool, outcome: ShellOutcome) -> (r: Result<
    FirewallToggleResponse,
    String,
>)
    ensures
        outcome matches ShellOutcome::LaunchFailed(e) ==> (r matches Err(m) && m@
            == "Failed to execute PowerShell: "@ + e@),
        outcome matches ShellOutcome::Failed(stderr) ==> (r matches Err(m) && m@
            == "Failed to set firewall status: "@ + stderr@),
        outcome is Output ==> (r matches Ok(resp) && resp.success && (if enabled {
            resp.message@ == "Windows Firewall enabled successfully"@
        } else {
            resp.message@ == "Windows Firewall disabled successfully"@
        })),
{
    match outcome {
        ShellOutcome::LaunchFailed(e) => {
            let mut m = String::from_str("Failed to execute PowerShell: ");
            m.append(e.as_str());
            Err(m)
        },
        ShellOutcome::Failed(stderr) => {
            let mut m = String::from_str("Failed to set firewall status: ");
            m.append(stderr.as_str());
            Err(m)
        },
        ShellOutcome::Output(_) => {
            let message = if enabled {
                String::from_str("Windows Firewall enabled successfully")
            } else {
                String::from_str("Windows Firewall disabled successfully")
            };
            Ok(FirewallToggleResponse { success: true, message })
        },
    }
}

/// The refusal reported on platforms without the managed firewall.
pub fn firewall_unsupported() -> (r: String)
    ensures
        r@ == "Firewall management is only supported on Windows"@,
{
    String::from_str("Firewall management is only supported on Windows")
}

} // verus!
