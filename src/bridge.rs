use vstd::prelude::*;

use crate::diagnostics::{level_text, LogBuffer, LogLevel};

verus! {

/// The base of the remote management API that every bridge path is resolved against.
pub const CF_API_BASE: &'static str = "https://api.cloudflare.com/client/v4";

/// The network timeout of one bridge call, in seconds, apart from the run's budget.
pub const BRIDGE_CALL_TIMEOUT_SECS: u64 = 10;

/// Convenience helpers, written in the guest language over the four
/// primitives, that run before the user's code.
pub const GUEST_PRELUDE: &'static str = r#"
cf.list_tunnels = function()
    return cf.get("/accounts/" .. cf.account_id .. "/cfd_tunnel?is_deleted=false&per_page=100")
end

cf.list_zones = function()
    return cf.get("/zones?per_page=50&status=active")
end

cf.list_dns_records = function(zone_id)
    return cf.get("/zones/" .. zone_id .. "/dns_records?per_page=100")
end

cf.get_tunnel = function(tunnel_id)
    return cf.get("/accounts/" .. cf.account_id .. "/cfd_tunnel/" .. tunnel_id)
end
"#;

/// The credential snapshot that a run takes at its start.
#[derive(Debug, Clone)]
pub struct Credentials {
    pub token: String,
    pub account_id: String,
}

impl Credentials {
    /// A copy of the credentials, taken so that later changes do not reach a run.
    pub fn snapshot(token: &str, account_id: &str) -> (r: Credentials)
        ensures
            r.token@ == token@,
            r.account_id@ == account_id@,
    {
        Credentials { token: String::from_str(token), account_id: String::from_str(account_id) }
    }
}

/// The four host calls that guest code may make.
#[derive(Debug, Clone, Copy, PartialEq, Eq, Structural)]
pub enum BridgeVerb {
    Get,
    Post,
    Put,
    Delete,
}

pub open spec fn verb_name(v: BridgeVerb) -> Seq<char> {
    match v {
        BridgeVerb::Get => "get"@,
        BridgeVerb::Post => "post"@,
        BridgeVerb::Put => "put"@,
        BridgeVerb::Delete => "delete"@,
    }
}

impl BridgeVerb {
    /// Whether the call sends a JSON body.
    pub fn has_body(&self) -> (r: bool)
        ensures
            r == (*self == BridgeVerb::Post || *self == BridgeVerb::Put),
    {
        match self {
            BridgeVerb::Post | BridgeVerb::Put => true,
            _ => false,
        }
    }

    pub fn name(&self) -> (r: String)
        ensures
            r@ == verb_name(*self),
    {
        match self {
            BridgeVerb::Get => String::from_str("get"),
            BridgeVerb::Post => String::from_str("post"),
            BridgeVerb::Put => String::from_str("put"),
            BridgeVerb::Delete => String::from_str("delete"),
        }
    }
}

/// The address that a guest path resolves to.
pub fn api_url(path: &str) -> (r: String)
    ensures
        r@ == CF_API_BASE@ + path@,
{
    String::from_str(CF_API_BASE).concat(path)
}

/// The authorization header value for a token.
pub fn bearer_header(token: &str) -> (r: String)
    ensures
        r@ == "Bearer "@ + token@,
{
    String::from_str("Bearer ").concat(token)
}

/// The diagnostic text of a failed transport.
pub open spec fn transport_log_text(verb: BridgeVerb, detail: Seq<char>) -> Seq<char> {
    "cf."@ + verb_name(verb) + " failed: "@ + detail
}

/// The guest-visible error of a failed transport.
pub open spec fn transport_error_text(detail: Seq<char>) -> Seq<char> {
    "HTTP request failed: "@ + detail
}

/// Settles a bridge call whose transport failed: appends exactly one
/// error-level record that names the call and the failure, and returns the
/// error that the guest sees.
pub fn transport_failure(logs: &mut LogBuffer, verb: BridgeVerb, detail: &str) -> (r: String)
    ensures
        final(logs)@.len() == old(logs)@.len() + 1,
        final(logs)@.drop_last() == old(logs)@,
        final(logs)@.last().level == level_text(LogLevel::Error),
        final(logs)@.last().message == transport_log_text(verb, detail@),
        r@ == transport_error_text(detail@),
{
    let message = String::from_str("cf.").concat(verb.name().as_str()).concat(" failed: ").concat(
        detail,
    );
    logs.record(LogLevel::Error, message);
    String::from_str("HTTP request failed: ").concat(detail)
}

/// The guest-visible error when the guest's body cannot be turned into a
/// request payload. No record is appended.
pub fn payload_failure(detail: &str) -> (r: String)
    ensures
        r@ == "request body conversion failed: "@ + detail@,
{
    String::from_str("request body conversion failed: ").concat(detail)
}

/// The guest-visible error when a response cannot be handed to the guest.
/// No record is appended.
pub fn response_failure(detail: &str) -> (r: String)
    ensures
        r@ == "response conversion failed: "@ + detail@,
{
    String::from_str("response conversion failed: ").concat(detail)
}

/// The program that the interpreter runs: the prelude, a line break, then
/// the user's code.
pub fn guest_program(code: &str) -> (r: String)
    ensures
        r@ == GUEST_PRELUDE@ + "\n"@ + code@,
{
    String::from_str(GUEST_PRELUDE).concat("\n").concat(code)
}

} // verus!
