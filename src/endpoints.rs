//! Session identifiers and the request targets built from them.

use vstd::prelude::*;
use vstd::string::*;

verus! {

/// Address of the collection of sandboxes: `create` posts here.
pub const SANDBOXES_URL: &'static str = "https://api.e2b.dev/sandboxes";

/// Template that every new sandbox is started from.
pub const TEMPLATE_ID: &'static str = "code-interpreter-beta";

/// Idle timeout, in seconds, after which the service reclaims a sandbox.
pub const SANDBOX_TIMEOUT_SECS: u32 = 10;

/// Number of events the hand-off channel holds before the producer waits.
pub const EVENT_CHANNEL_CAPACITY: usize = 100;

/// The session id: the sandbox id and the client id joined by `-`.
pub open spec fn session_id_of(sandbox_id: Seq<char>, client_id: Seq<char>) -> Seq<char> {
    sandbox_id + "-"@ + client_id
}

/// The per-session endpoint that runs code and streams its events.
pub open spec fn execute_url_of(session_id: Seq<char>) -> Seq<char> {
    "https://49999-"@ + session_id + ".e2b.dev/execute"@
}

/// The resource of one session, which `kill` deletes.
pub open spec fn session_url_of(session_id: Seq<char>) -> Seq<char> {
    SANDBOXES_URL@ + "/"@ + session_id
}

/// The authorization header value for the execution endpoint.
pub open spec fn bearer_of(api_key: Seq<char>) -> Seq<char> {
    "Bearer "@ + api_key
}

/// Joins the two identifiers that the service issues for a new sandbox.
pub fn compose_session_id(sandbox_id: &str, client_id: &str) -> (r: String)
    ensures
        r@ == session_id_of(sandbox_id@, client_id@),
{
    let mut r = String::from_str(sandbox_id);
    r.append("-");
    r.append(client_id);
    r
}

/// Target of the streaming execution request for a session.
pub fn execute_url(session_id: &str) -> (r: String)
    ensures
        r@ == execute_url_of(session_id@),
{
    let mut r = String::from_str("https://49999-");
    r.append(session_id);
    r.append(".e2b.dev/execute");
    r
}

/// Target of the request that deletes a session.
pub fn session_url(session_id: &str) -> (r: String)
    ensures
        r@ == session_url_of(session_id@),
{
    let mut r = String::from_str(SANDBOXES_URL);
    r.append("/");
    r.append(session_id);
    r
}

/// Value of the authorization header sent with an execution request.
pub fn bearer_header(api_key: &str) -> (r: String)
    ensures
        r@ == bearer_of(api_key@),
{
    let mut r = String::from_str("Bearer ");
    r.append(api_key);
    r
}

} // verus!
