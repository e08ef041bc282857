use vstd::prelude::*;
use crate::platform::Platform;

verus! {

/// The fixed well-known local endpoint where Core listens. A named local
/// socket on Windows, a filesystem path elsewhere. Not configurable.
pub fn core_socket_path(platform: Platform) -> (r: String)
    ensures
        platform is Windows ==> r@ == "connect_tool.sock"@,
        !(platform is Windows) ==> r@ == "/tmp/connect_tool.sock"@,
{
    match platform {
        Platform::Windows => String::from_str("connect_tool.sock"),
        Platform::MacOs => String::from_str("/tmp/connect_tool.sock"),
        Platform::Linux => String::from_str("/tmp/connect_tool.sock"),
    }
}

/// The text reported when dialing the endpoint fails: it carries the endpoint
/// and the underlying cause verbatim, so a failure is diagnosable as is.
pub open spec fn connect_error_text(endpoint: Seq<char>, cause: Seq<char>) -> Seq<char> {
    "Failed to connect to UDS at "@ + endpoint + ": "@ + cause
}

/// Builds the connect-failure report for one dial attempt.
pub fn connect_error_message(endpoint: &str, cause: &str) -> (r: String)
    ensures
        r@ == connect_error_text(endpoint@, cause@),
{
    let mut s = String::from_str("Failed to connect to UDS at ");
    s.append(endpoint);
    s.append(": ");
    s.append(cause);
    s
}

/// A connect failure is reported with the endpoint embedded in the text:
/// the endpoint appears verbatim as a contiguous part of the message.
pub proof fn lemma_connect_error_contains_endpoint(endpoint: Seq<char>, cause: Seq<char>)
    ensures
        exists|i: int|
            0 <= i && i + endpoint.len() <= connect_error_text(endpoint, cause).len()
                && #[trigger] connect_error_text(endpoint, cause).subrange(
                i,
                i + endpoint.len() as int,
            ) == endpoint,
{
    let p = "Failed to connect to UDS at "@;
    let t = connect_error_text(endpoint, cause);
    assert(t.subrange(p.len() as int, (p.len() + endpoint.len()) as int) =~= endpoint);
}

} // verus!
