use vstd::prelude::*;

use crate::admission::{acquire_step, Permit, PermitPool};
use crate::bridge::{guest_program, Credentials, GUEST_PRELUDE};
use crate::config::Config;
use crate::governor::{memory_bytes_of, ExecutionLimits};
use crate::models::{is_failure_with, is_success, ApiResponse};
use crate::script::{script_views, Script, ScriptOutput};
use crate::store::{edited_script, first_match, has_id, lookup, without_id, ScriptStore};
use crate::text::{decimal, decimal_string};

verus! {

/// The repository already holds the configured maximum number of scripts.
pub const SCRIPT_LIMIT_REACHED: u32 = 2001;

/// No script has the requested identifier.
pub const SCRIPT_NOT_FOUND: u32 = 2002;

/// Every run permit is taken; the caller may retry later.
pub const RUN_REJECTED: u32 = 2003;

/// The run could not be carried out at all.
pub const RUN_FAILED: u32 = 2004;

/// The code a new script gets when the caller gives none.
pub const DEFAULT_SCRIPT_CODE: &'static str = r#"-- QTunnel Lua script
-- Available API:
--   print(...)                    write to the console
--   log.info(msg)                 info record
--   log.warn(msg)                 warning record
--   log.error(msg)                error record
--   cf.get(path)                  Cloudflare API GET
--   cf.post(path, body)           Cloudflare API POST
--   cf.put(path, body)            Cloudflare API PUT
--   cf.delete(path)               Cloudflare API DELETE
--   cf.list_tunnels()             list all tunnels
--   cf.list_zones()               list all zones
--   cf.list_dns_records(zone_id)  list DNS records
--   cf.account_id                 current account id
--   sleep(ms)                     pause (at most 1000 ms)

print("Hello from QTunnel!")
"#;

/// The message of a create refused for capacity.
pub open spec fn limit_text(max_scripts: usize) -> Seq<char> {
    "script limit reached ("@ + decimal(max_scripts as nat) + ")"@
}

pub open spec fn not_found_text() -> Seq<char> {
    "script not found"@
}

pub open spec fn rejected_text() -> Seq<char> {
    "too many scripts running, retry later"@
}

fn script_not_found<T>() -> (r: ApiResponse<T>)
    ensures
        is_failure_with(r, SCRIPT_NOT_FOUND, not_found_text()),
{
    ApiResponse::err(SCRIPT_NOT_FOUND, String::from_str("script not found"))
}

/// All scripts, in insertion order.
pub fn list_scripts(store: &ScriptStore) -> (r: ApiResponse<Vec<Script>>)
    ensures
        is_success(r),
        script_views(r.data->Some_0@) == store@,
{
    ApiResponse::ok(store.list())
}

/// Creates a script unless the repository already holds `max_scripts`
/// scripts. A missing description is empty; missing code is the default
/// script.
pub fn create_script(
    store: &mut ScriptStore,
    name: String,
    description: Option<String>,
    code: Option<String>,
    max_scripts: usize,
) -> (r: ApiResponse<Script>)
    ensures
        old(store)@.len() >= max_scripts ==> {
            &&& is_failure_with(r, SCRIPT_LIMIT_REACHED, limit_text(max_scripts))
            &&& final(store)@ == old(store)@
        },
        old(store)@.len() < max_scripts ==> {
            &&& is_success(r)
            &&& final(store)@ == old(store)@.push(r.data->Some_0@)
            &&& r.data->Some_0.name@ == name@
            &&& r.data->Some_0.description@ == match description {
                Some(d) => d@,
                None => Seq::<char>::empty(),
            }
            &&& r.data->Some_0.code@ == match code {
                Some(c) => c@,
                None => DEFAULT_SCRIPT_CODE@,
            }
            &&& r.data->Some_0.enabled
            &&& r.data->Some_0.created_at@ == r.data->Some_0.updated_at@
        },
{
    if store.count() >= max_scripts {
        let digits = decimal_string(max_scripts as u64);
        let message = String::from_str("script limit reached (").concat(digits.as_str()).concat(
            ")",
        );
        return ApiResponse::err(SCRIPT_LIMIT_REACHED, message);
    }
    let description = match description {
        Some(d) => d,
        None => String::new(),
    };
    let code = match code {
        Some(c) => c,
        None => String::from_str(DEFAULT_SCRIPT_CODE),
    };
    let script = store.create(name, description, code);
    ApiResponse::ok(script)
}

/// Rewrites name, description and code of the script `id`.
pub fn update_script(
    store: &mut ScriptStore,
    id: &str,
    name: String,
    description: String,
    code: String,
) -> (r: ApiResponse<Script>)
    ensures
        match lookup(old(store)@, id@) {
            None => is_failure_with(r, SCRIPT_NOT_FOUND, not_found_text()) && final(store)@ == old(
                store,
            )@,
            Some(s) => {
                &&& is_success(r)
                &&& r.data->Some_0@ == edited_script(
                    s,
                    name@,
                    description@,
                    code@,
                    r.data->Some_0.updated_at@,
                )
                &&& final(store)@ == old(store)@.update(
                    first_match(old(store)@, id@),
                    r.data->Some_0@,
                )
            },
        },
{
    match store.update(id, name, description, code) {
        Some(s) => ApiResponse::ok(s),
        None => script_not_found(),
    }
}

/// Removes the script `id`.
pub fn delete_script(store: &mut ScriptStore, id: &str) -> (r: ApiResponse<()>)
    ensures
        final(store)@ == without_id(old(store)@, id@),
        has_id(old(store)@, id@) ==> is_success(r),
        !has_id(old(store)@, id@) ==> is_failure_with(r, SCRIPT_NOT_FOUND, not_found_text()),
{
    if store.delete(id) {
        ApiResponse::ok(())
    } else {
        script_not_found()
    }
}

/// Everything an admitted run needs: the program to run, the credential
/// snapshot, the limits read at its start and the permit it holds.
pub struct RunPlan {
    pub program: String,
    pub credentials: Credentials,
    pub limits: ExecutionLimits,
    pub permit: Permit,
}

/// The first steps of a run: find the script, then take a permit. Fails
/// with not-found for an unknown id and with a rejection, at once, when no
/// permit is free.
pub fn admit_run(
    store: &ScriptStore,
    id: &str,
    pool: &mut PermitPool,
    credentials: &Credentials,
    cfg: &Config,
) -> (r: Result<RunPlan, ApiResponse<ScriptOutput>>)
    requires
        old(pool).wf(),
    ensures
        final(pool).wf(),
        match lookup(store@, id@) {
            None => {
                &&& r matches Err(e) && is_failure_with(e, SCRIPT_NOT_FOUND, not_found_text())
                &&& final(pool)@ == old(pool)@
            },
            Some(s) => {
                &&& (final(pool)@, r is Ok) == acquire_step(old(pool)@)
                &&& r matches Err(e) ==> is_failure_with(e, RUN_REJECTED, rejected_text())
                &&& r matches Ok(plan) ==> {
                    &&& plan.program@ == GUEST_PRELUDE@ + "\n"@ + s.code
                    &&& plan.credentials.token@ == credentials.token@
                    &&& plan.credentials.account_id@ == credentials.account_id@
                    &&& plan.limits.max_memory_bytes == memory_bytes_of(cfg.script_memory_mb)
                    &&& plan.limits.max_wall_time_ms == cfg.script_timeout_ms
                }
            },
        },
{
    let script = match store.get(id) {
        Some(s) => s,
        None => return Err(script_not_found()),
    };
    let permit = match pool.try_acquire() {
        Some(p) => p,
        None => {
            return Err(
                ApiResponse::err(RUN_REJECTED, String::from_str("too many scripts running, retry later")),
            );
        },
    };
    let credentials = Credentials::snapshot(credentials.token.as_str(), credentials.account_id.as_str());
    let limits = ExecutionLimits::from_config(cfg);
    let program = guest_program(script.code.as_str());
    Ok(RunPlan { program, credentials, limits, permit })
}

/// The last step of a run: the permit goes back to the pool whatever the
/// outcome, and the outcome becomes the envelope.
pub fn complete_run(
    pool: &mut PermitPool,
    permit: Permit,
    outcome: Result<ScriptOutput, String>,
) -> (r: ApiResponse<ScriptOutput>)
    requires
        old(pool).wf(),
    ensures
        final(pool).wf(),
        final(pool)@.capacity == old(pool)@.capacity,
        final(pool)@.outstanding == if old(pool)@.outstanding > 0 {
            (old(pool)@.outstanding - 1) as nat
        } else {
            0
        },
        match outcome {
            Ok(out) => is_success(r) && r.data == Some(out),
            Err(e) => is_failure_with(r, RUN_FAILED, e@),
        },
{
    pool.release(permit);
    match outcome {
        Ok(out) => ApiResponse::ok(out),
        Err(e) => ApiResponse::err(RUN_FAILED, e),
    }
}

} // verus!
