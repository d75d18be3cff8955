//! Creating and deleting sandboxes: the payload that `create` sends and what
//! its response means.

use vstd::prelude::*;
use vstd::string::*;
use crate::endpoints::{TEMPLATE_ID, SANDBOX_TIMEOUT_SECS, session_id_of, compose_session_id};
use crate::json::{Members, json_object_members, member_text, parse_object, find_member};

verus! {

/// Why a lifecycle call failed.
#[derive(Clone, Debug)]
pub enum ClientError {
    /// The request did not reach the service or its answer was lost.
    Transport(String),
    /// The service answered with a non-success status; this is its body.
    Service(String),
    /// The service's answer is not the JSON that was expected.
    Decode,
}

/// The body of the request that creates a sandbox.
#[derive(Clone, Debug)]
pub struct CreateSandboxRequest {
    pub template_id: String,
    pub timeout: u32,
}

/// The body of the request that runs code in a sandbox.
#[derive(Clone, Debug)]
pub struct ExecuteCodeRequest {
    pub code: String,
}

/// The request that creates a sandbox from the fixed template, with the
/// fixed idle timeout.
pub fn create_request() -> (r: CreateSandboxRequest)
    ensures
        r.template_id@ == TEMPLATE_ID@,
        r.timeout == SANDBOX_TIMEOUT_SECS,
{
    CreateSandboxRequest { template_id: String::from_str(TEMPLATE_ID), timeout: SANDBOX_TIMEOUT_SECS }
}

/// The request that runs `code`, which is passed on unchanged.
pub fn execute_request(code: &str) -> (r: ExecuteCodeRequest)
    ensures
        r.code@ == code@,
{
    ExecuteCodeRequest { code: String::from_str(code) }
}

/// HTTP statuses in the 2xx range.
pub open spec fn is_success_status(status: int) -> bool {
    200 <= status <= 299
}

/// The session id that a create response object with members `ms` gives:
/// both `sandboxID` and `clientID` must be string members.
pub open spec fn session_of_members(ms: Members) -> Option<Seq<char>> {
    match (member_text(ms, "sandboxID"@), member_text(ms, "clientID"@)) {
        (Some(s), Some(c)) => Some(session_id_of(s, c)),
        _ => None,
    }
}

/// The session id that a successful create response body gives, if any.
pub open spec fn session_of_body(b: Seq<u8>) -> Option<Seq<char>> {
    match json_object_members(b) {
        Some(ms) => session_of_members(ms),
        None => None,
    }
}

/// Reads the session id out of the members of a create response.
pub fn session_from_members(ms: &Vec<(String, Option<String>)>) -> (r: Option<String>)
    ensures
        r.deep_view() == session_of_members(ms.deep_view()),
{
    let sandbox_id = find_member(ms, &String::from_str("sandboxID"));
    let client_id = find_member(ms, &String::from_str("clientID"));
    match (sandbox_id, client_id) {
        (Some(s), Some(c)) => Some(compose_session_id(s.as_str(), c.as_str())),
        _ => None,
    }
}

/// What a create call comes to, given the status and body the service
/// answered with: a non-success status fails with the body as the service's
/// message; otherwise the body must hold both identifiers.
pub fn create_outcome(status: u16, body: &str) -> (r: Result<String, ClientError>)
    ensures
        !is_success_status(status as int) ==> (r matches Err(ClientError::Service(m)) && m@ == body@),
        is_success_status(status as int) ==> match session_of_body(body.spec_bytes()) {
            Some(id) => r matches Ok(s) && s@ == id,
            None => r matches Err(ClientError::Decode),
        },
{
    if status < 200 || status > 299 {
        return Err(ClientError::Service(String::from_str(body)));
    }
    match parse_object(body.as_bytes()) {
        Some(ms) => match session_from_members(&ms) {
            Some(id) => Ok(id),
            None => Err(ClientError::Decode),
        },
        None => Err(ClientError::Decode),
    }
}

/// What a delete call comes to once the service has answered: the session
/// may already be gone on the service's side, so no status is an error.
pub fn kill_outcome(status: u16) -> (r: Result<(), ClientError>)
    ensures
        r is Ok,
{
    Ok(())
}

/// A create response whose `sandboxID` and `clientID` members are strings
/// gives exactly those two, joined by `-`, as the session id.
pub proof fn session_id_is_joined_identifiers(
    ms: Members,
    sandbox_id: Seq<char>,
    client_id: Seq<char>,
)
    requires
        member_text(ms, "sandboxID"@) == Some(sandbox_id),
        member_text(ms, "clientID"@) == Some(client_id),
    ensures
        session_of_members(ms) == Some(sandbox_id + "-"@ + client_id),
{
}

} // verus!
