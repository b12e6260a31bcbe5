use qtunnel::admission::PermitPool;
use qtunnel::bridge::{
    api_url, bearer_header, guest_program, payload_failure, response_failure, transport_failure,
    BridgeVerb, Credentials, GUEST_PRELUDE,
};
use qtunnel::config::Config;
use qtunnel::coordinator::{
    admit_run, complete_run, create_script, delete_script, list_scripts, update_script,
    DEFAULT_SCRIPT_CODE, RUN_FAILED, RUN_REJECTED, SCRIPT_LIMIT_REACHED, SCRIPT_NOT_FOUND,
};
use qtunnel::diagnostics::{GuestValue, LogBuffer, LogLevel};
use qtunnel::governor::{clamp_sleep_ms, finish_run, timeout_message, ExecutionLimits};
use qtunnel::store::ScriptStore;
use qtunnel::text::{decimal_string, join_with, signed_decimal_string};

#[test]
fn leveled_logs_keep_call_order() {
    let mut logs = LogBuffer::new();
    logs.record(LogLevel::Info, "one".to_string());
    logs.record(LogLevel::Warn, "two".to_string());
    logs.record(LogLevel::Error, "three".to_string());
    logs.record(LogLevel::Info, "one".to_string());
    let out = finish_run(logs.into_entries(), None, 3, 100);
    let seen: Vec<(String, String)> = out.logs.iter().map(|e| (e.level.clone(), e.message.clone())).collect();
    assert_eq!(
        seen,
        vec![
            ("info".to_string(), "one".to_string()),
            ("warn".to_string(), "two".to_string()),
            ("error".to_string(), "three".to_string()),
            ("info".to_string(), "one".to_string()),
        ]
    );
    assert!(out.logs.iter().all(|e| !e.timestamp.is_empty()));
    assert!(out.error.is_none());
    assert_eq!(out.duration_ms, 3);
    assert_eq!(out.memory_used, 100);
}

#[test]
fn print_joins_rendered_arguments_with_tabs() {
    let mut logs = LogBuffer::new();
    logs.print(&vec![
        GuestValue::Text(Some("hi".to_string())),
        GuestValue::Integer(-42),
        GuestValue::Boolean(true),
        GuestValue::Nil,
        GuestValue::Number("1.5".to_string()),
        GuestValue::Table,
        GuestValue::Function,
        GuestValue::Text(None),
        GuestValue::Other("userdata".to_string()),
    ]);
    logs.print(&vec![]);
    let entries = logs.entries();
    assert_eq!(entries.len(), 2);
    assert_eq!(entries[0].level, "info");
    assert_eq!(entries[0].message, "hi\t-42\ttrue\tnil\t1.5\t[table]\t[function]\t<invalid utf8>\t[userdata]");
    assert_eq!(entries[1].message, "");
    assert_eq!(logs.len(), 2);
}

#[test]
fn decimal_text_of_integers() {
    assert_eq!(decimal_string(0), "0");
    assert_eq!(decimal_string(5000), "5000");
    assert_eq!(decimal_string(u64::MAX), u64::MAX.to_string());
    assert_eq!(signed_decimal_string(i64::MIN), i64::MIN.to_string());
    assert_eq!(signed_decimal_string(-7), "-7");
    assert_eq!(join_with(&vec!["a".to_string(), "b".to_string(), "c".to_string()], ", "), "a, b, c");
    assert_eq!(join_with(&vec![], "\t"), "");
}

#[test]
fn limits_come_from_settings_and_zero_memory_means_no_ceiling() {
    let cfg = Config::default();
    let limits = ExecutionLimits::from_config(&cfg);
    assert_eq!(limits.max_memory_bytes, 10 * 1024 * 1024);
    assert_eq!(limits.max_wall_time_ms, 5000);
    assert_eq!(limits.memory_ceiling(), Some(10 * 1024 * 1024));
    let mut unlimited = Config::default();
    unlimited.script_memory_mb = 0;
    assert_eq!(ExecutionLimits::from_config(&unlimited).memory_ceiling(), None);
    let mut huge = Config::default();
    huge.script_memory_mb = usize::MAX;
    assert_eq!(ExecutionLimits::from_config(&huge).max_memory_bytes, usize::MAX);
}

#[test]
fn allocation_ceiling_is_the_configured_budget() {
    let limits = ExecutionLimits { max_memory_bytes: 1024 * 1024, max_wall_time_ms: 100 };
    assert_eq!(limits.memory_ceiling(), Some(1048576));
}

#[test]
fn sleep_loop_is_stopped_near_the_budget_not_the_requested_sleep() {
    let limits = ExecutionLimits { max_memory_bytes: 0, max_wall_time_ms: 2500 };
    // A guest loop that asks for 60 s per sleep; each pause is clamped and the
    // time check runs between pauses.
    let mut elapsed_ms: u64 = 0;
    let mut stopped = false;
    for _ in 0..100 {
        elapsed_ms += clamp_sleep_ms(60_000);
        if limits.time_exceeded(elapsed_ms * 1_000_000) {
            stopped = true;
            break;
        }
    }
    assert!(stopped);
    assert!(elapsed_ms >= 2500 && elapsed_ms <= 2500 + 1000);
    let msg = timeout_message(limits.max_wall_time_ms);
    assert_eq!(msg, "script execution timed out (>2500ms)");
    assert!(msg.contains("timed out"));
}

#[test]
fn time_check_fires_only_past_the_budget() {
    let limits = ExecutionLimits { max_memory_bytes: 0, max_wall_time_ms: 5 };
    assert!(!limits.time_exceeded(5_000_000));
    assert!(limits.time_exceeded(5_000_001));
    let endless = ExecutionLimits { max_memory_bytes: 0, max_wall_time_ms: u64::MAX };
    assert!(!endless.time_exceeded(u64::MAX));
    assert_eq!(clamp_sleep_ms(10), 10);
    assert_eq!(clamp_sleep_ms(1000), 1000);
    assert_eq!(clamp_sleep_ms(1001), 1000);
}

#[test]
fn excess_runs_are_rejected_immediately() {
    let mut pool = PermitPool::new(3);
    let a = pool.try_acquire();
    let b = pool.try_acquire();
    let c = pool.try_acquire();
    assert!(a.is_some() && b.is_some() && c.is_some());
    assert!(pool.try_acquire().is_none());
    assert!(pool.try_acquire().is_none());
    assert_eq!(pool.available(), 0);
    pool.release(a.unwrap());
    assert_eq!(pool.available(), 1);
    assert!(pool.try_acquire().is_some());
    let mut none = PermitPool::new(0);
    assert!(none.try_acquire().is_none());
}

#[test]
fn transport_failure_gives_guest_error_and_one_error_record() {
    let mut logs = LogBuffer::new();
    logs.record(LogLevel::Info, "before".to_string());
    let err = transport_failure(&mut logs, BridgeVerb::Put, "connection refused");
    assert_eq!(err, "HTTP request failed: connection refused");
    let entries = logs.entries();
    assert_eq!(entries.len(), 2);
    let errors: Vec<_> = entries.iter().filter(|e| e.level == "error").collect();
    assert_eq!(errors.len(), 1);
    assert_eq!(errors[0].message, "cf.put failed: connection refused");
}

#[test]
fn non_transport_failures_add_no_record() {
    let logs = LogBuffer::new();
    assert_eq!(payload_failure("bad table"), "request body conversion failed: bad table");
    assert_eq!(response_failure("deep"), "response conversion failed: deep");
    assert_eq!(logs.len(), 0);
}

#[test]
fn bridge_addresses_and_headers() {
    assert_eq!(api_url("/zones"), "https://api.cloudflare.com/client/v4/zones");
    assert_eq!(bearer_header("tok"), "Bearer tok");
    assert!(BridgeVerb::Post.has_body() && BridgeVerb::Put.has_body());
    assert!(!BridgeVerb::Get.has_body() && !BridgeVerb::Delete.has_body());
    let program = guest_program("print(1)");
    assert!(program.starts_with(GUEST_PRELUDE));
    assert!(program.ends_with("\nprint(1)"));
    let creds = Credentials::snapshot("t", "a");
    assert_eq!((creds.token.as_str(), creds.account_id.as_str()), ("t", "a"));
}

#[test]
fn create_is_refused_at_the_script_limit() {
    let mut store = ScriptStore::new(None);
    let first = create_script(&mut store, "a".to_string(), None, None, 2);
    assert!(first.success);
    let s = first.data.unwrap();
    assert_eq!(s.description, "");
    assert_eq!(s.code, DEFAULT_SCRIPT_CODE);
    let second = create_script(&mut store, "b".to_string(), Some("d".to_string()), Some("x=1".to_string()), 2);
    assert_eq!(second.data.unwrap().code, "x=1");
    let third = create_script(&mut store, "c".to_string(), None, None, 2);
    assert!(!third.success);
    let e = third.error.unwrap();
    assert_eq!(e.code, SCRIPT_LIMIT_REACHED);
    assert_eq!(e.message, "script limit reached (2)");
    assert_eq!(store.count(), 2);
    assert_eq!(list_scripts(&store).data.unwrap().len(), 2);
}

#[test]
fn update_and_delete_of_unknown_script_are_not_found() {
    let mut store = ScriptStore::new(None);
    let u = update_script(&mut store, "x", "n".to_string(), "d".to_string(), "c".to_string());
    assert_eq!(u.error.unwrap().code, SCRIPT_NOT_FOUND);
    let d = delete_script(&mut store, "x");
    assert_eq!(d.error.unwrap().message, "script not found");
    let created = create_script(&mut store, "a".to_string(), None, None, 5).data.unwrap();
    let u = update_script(&mut store, &created.id, "b".to_string(), "d".to_string(), "c".to_string());
    assert_eq!(u.data.unwrap().name, "b");
    assert!(delete_script(&mut store, &created.id).success);
}

#[test]
fn run_admission_and_completion() {
    let mut store = ScriptStore::new(None);
    let created = create_script(&mut store, "a".to_string(), None, Some("log.info('x')".to_string()), 5)
        .data
        .unwrap();
    let creds = Credentials::snapshot("tok", "acc");
    let mut cfg = Config::default();
    cfg.script_timeout_ms = 700;
    let mut pool = PermitPool::new(1);

    let missing = admit_run(&store, "nope", &mut pool, &creds, &cfg).err().unwrap();
    assert_eq!(missing.error.unwrap().code, SCRIPT_NOT_FOUND);
    assert_eq!(pool.available(), 1);

    let plan = admit_run(&store, &created.id, &mut pool, &creds, &cfg).ok().unwrap();
    assert!(plan.program.ends_with("\nlog.info('x')"));
    assert_eq!(plan.credentials.token, "tok");
    assert_eq!(plan.limits.max_wall_time_ms, 700);
    assert_eq!(pool.available(), 0);

    let busy = admit_run(&store, &created.id, &mut pool, &creds, &cfg).err().unwrap();
    assert_eq!(busy.error.unwrap().code, RUN_REJECTED);

    let out = finish_run(Vec::new(), Some(timeout_message(700)), 701, 2048);
    let done = complete_run(&mut pool, plan.permit, Ok(out));
    assert!(done.success);
    assert_eq!(done.data.unwrap().error.unwrap(), "script execution timed out (>700ms)");
    assert_eq!(pool.available(), 1);

    let plan = admit_run(&store, &created.id, &mut pool, &creds, &cfg).ok().unwrap();
    let failed = complete_run(&mut pool, plan.permit, Err("worker lost".to_string()));
    let e = failed.error.unwrap();
    assert_eq!((e.code, e.message.as_str()), (RUN_FAILED, "worker lost"));
    assert_eq!(pool.available(), 1);
}
