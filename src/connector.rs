use vstd::prelude::*;

use crate::cloud::TunnelRunStatus;
use crate::models::{is_failure_with, is_success, ApiResponse};
use crate::text::{signed_decimal, signed_decimal_string};

verus! {

/// The local tunnel connector could not be found, started or checked.
pub const CONNECTOR_FAILED: u32 = 1010;

/// The program that connects a tunnel from this machine.
pub const CONNECTOR_PROGRAM: &'static str = "cloudflared";

/// What a check on a tracked connector process found.
#[derive(Debug, Clone, Copy, PartialEq, Eq, Structural)]
pub enum ProcessState {
    Running,
    /// The process ended, with its exit code where it has one.
    Exited(Option<i32>),
    /// The check itself failed.
    Unknown,
}

/// Only a running process stays tracked; an ended one, or one that cannot
/// be checked, is forgotten.
pub fn stays_tracked(state: ProcessState) -> (r: bool)
    ensures
        r == (state == ProcessState::Running),
{
    match state {
        ProcessState::Running => true,
        _ => false,
    }
}

fn run_status(tunnel_id: String, running: bool, message: &str) -> (r: TunnelRunStatus)
    ensures
        r.tunnel_id == tunnel_id,
        r.running == running,
        r.message@ == message@,
{
    TunnelRunStatus { tunnel_id, running, message: String::from_str(message) }
}

/// The answer to a start request for a tunnel whose connector already runs.
pub fn already_running(tunnel_id: String) -> (r: ApiResponse<TunnelRunStatus>)
    ensures
        is_success(r),
        r.data->Some_0.tunnel_id == tunnel_id,
        r.data->Some_0.running,
        r.data->Some_0.message@ == "tunnel is already running"@,
{
    ApiResponse::ok(run_status(tunnel_id, true, "tunnel is already running"))
}

/// The arguments that start the connector for a tunnel token.
pub fn connector_args(token: &str) -> (r: Vec<String>)
    ensures
        r@.len() == 4,
        r@[0]@ == "tunnel"@,
        r@[1]@ == "run"@,
        r@[2]@ == "--token"@,
        r@[3]@ == token@,
{
    let mut args: Vec<String> = Vec::new();
    args.push(String::from_str("tunnel"));
    args.push(String::from_str("run"));
    args.push(String::from_str("--token"));
    args.push(String::from_str(token));
    args
}

/// The exit code as the failure message shows it: -1 where there is none.
pub open spec fn exit_code_text(code: Option<i32>) -> Seq<char> {
    match code {
        Some(c) => signed_decimal(c as int),
        None => signed_decimal(-1),
    }
}

/// The answer once a started connector has had a moment to fail: started
/// where it still runs, a failure where it ended or cannot be checked.
pub fn after_start(tunnel_id: String, state: ProcessState) -> (r: ApiResponse<TunnelRunStatus>)
    ensures
        match state {
            ProcessState::Running => {
                &&& is_success(r)
                &&& r.data->Some_0.tunnel_id == tunnel_id
                &&& r.data->Some_0.running
                &&& r.data->Some_0.message@ == "tunnel started"@
            },
            ProcessState::Exited(code) => is_failure_with(
                r,
                CONNECTOR_FAILED,
                "cloudflared exited right after starting (exit code: "@ + exit_code_text(code)
                    + "), check the proxy settings or the network"@,
            ),
            ProcessState::Unknown => is_failure_with(
                r,
                CONNECTOR_FAILED,
                "could not check the cloudflared process"@,
            ),
        },
{
    match state {
        ProcessState::Running => ApiResponse::ok(run_status(tunnel_id, true, "tunnel started")),
        ProcessState::Exited(code) => {
            let c: i64 = match code {
                Some(c) => c as i64,
                None => -1,
            };
            let text = signed_decimal_string(c);
            let message = String::from_str("cloudflared exited right after starting (exit code: ")
                .concat(text.as_str()).concat("), check the proxy settings or the network");
            ApiResponse::err(CONNECTOR_FAILED, message)
        },
        ProcessState::Unknown => ApiResponse::err(
            CONNECTOR_FAILED,
            String::from_str("could not check the cloudflared process"),
        ),
    }
}

/// The answer to a stop request: the connector was stopped, or was not running.
pub fn stop_status(tunnel_id: String, was_tracked: bool) -> (r: ApiResponse<TunnelRunStatus>)
    ensures
        is_success(r),
        r.data->Some_0.tunnel_id == tunnel_id,
        !r.data->Some_0.running,
        r.data->Some_0.message@ == if was_tracked {
            "tunnel stopped"@
        } else {
            "tunnel was not running"@
        },
{
    if was_tracked {
        ApiResponse::ok(run_status(tunnel_id, false, "tunnel stopped"))
    } else {
        ApiResponse::ok(run_status(tunnel_id, false, "tunnel was not running"))
    }
}

/// The answer when the connector is not installed.
pub fn connector_missing<T>() -> (r: ApiResponse<T>)
    ensures
        is_failure_with(
            r,
            CONNECTOR_FAILED,
            "cloudflared is not installed, see https://developers.cloudflare.com/cloudflare-one/connections/connect-networks/downloads/"@,
        ),
{
    ApiResponse::err(
        CONNECTOR_FAILED,
        String::from_str(
            "cloudflared is not installed, see https://developers.cloudflare.com/cloudflare-one/connections/connect-networks/downloads/",
        ),
    )
}

/// The answer when the connector could not be started.
pub fn start_failed<T>(detail: &str) -> (r: ApiResponse<T>)
    ensures
        is_failure_with(r, CONNECTOR_FAILED, "could not start cloudflared: "@ + detail@),
{
    ApiResponse::err(CONNECTOR_FAILED, String::from_str("could not start cloudflared: ").concat(detail))
}

} // verus!
