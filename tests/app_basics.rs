use qtunnel::config::{config_from_environment, env_assignment, parse_u64, trim_text, Config};
use qtunnel::error::AppError;
use qtunnel::models::ApiResponse;

#[test]
fn test_config_default_values() {
    let cfg = Config::default();
    assert_eq!(cfg.cache_size, 1000);
    assert_eq!(cfg.cache_ttl, 300);
    assert_eq!(cfg.log_level, "info");
    assert_eq!(cfg.max_scripts, 10);
    assert_eq!(cfg.script_memory_mb, 10);
    assert_eq!(cfg.script_timeout_ms, 5000);
    assert_eq!(cfg.script_concurrency, 3);
    assert!(cfg.cf_api_token.is_empty());
    assert!(cfg.cf_account_id.is_empty());
}

#[test]
fn test_api_response_ok() {
    let resp = ApiResponse::ok(42);
    assert!(resp.success);
    assert_eq!(resp.data, Some(42));
    assert!(resp.error.is_none());
}

#[test]
fn test_api_response_err() {
    let resp: ApiResponse<()> = ApiResponse::err(1001, "test error".to_string());
    assert!(!resp.success);
    assert!(resp.data.is_none());
    assert_eq!(resp.error.as_ref().unwrap().code, 1001);
    assert_eq!(resp.error.as_ref().unwrap().message, "test error");
}

#[test]
fn test_error_codes() {
    assert_eq!(AppError::DatabaseError("x".into()).code(), 1001);
    assert_eq!(AppError::ApiError("x".into()).code(), 1002);
    assert_eq!(AppError::InvalidToken.code(), 1003);
    assert_eq!(AppError::NetworkError("x".into()).code(), 1008);
    assert_eq!(AppError::Unauthorized.code(), 1009);
}

#[test]
fn test_error_display() {
    let err = AppError::NetworkError("timeout".to_string());
    assert_eq!(err.message(), "Network error: timeout");
}

#[test]
fn every_error_code_is_distinct_and_stable() {
    let all = vec![
        AppError::DatabaseError(String::new()),
        AppError::ApiError(String::new()),
        AppError::InvalidToken,
        AppError::TunnelNotFound,
        AppError::ServiceNotFound,
        AppError::RouteNotFound,
        AppError::ConfigError(String::new()),
        AppError::NetworkError(String::new()),
        AppError::Unauthorized,
        AppError::InternalError,
    ];
    let codes: Vec<u32> = all.iter().map(|e| e.code()).collect();
    assert_eq!(codes, (1001..=1010).collect::<Vec<u32>>());
}

#[test]
fn error_messages_carry_their_detail() {
    assert_eq!(AppError::DatabaseError("locked".into()).message(), "Database error: locked");
    assert_eq!(AppError::ApiError("bad".into()).message(), "API error: bad");
    assert_eq!(AppError::ConfigError("c".into()).message(), "Configuration error: c");
    assert_eq!(AppError::InvalidToken.message(), "Invalid token");
    assert_eq!(AppError::InternalError.message(), "Internal server error");
}

#[test]
fn config_priority_prefers_user_file_then_app_data_then_environment() {
    let mut user = Config::default();
    user.cf_api_token = "user".to_string();
    let mut app = Config::default();
    app.cf_api_token = "app".to_string();
    let mut env = Config::default();
    env.cf_api_token = "env".to_string();
    let picked = Config::load_with_priority(Some(user.clone()), Some(app.clone()), Some(env.clone()));
    assert_eq!(picked.cf_api_token, "user");
    let picked = Config::load_with_priority(None, Some(app), Some(env.clone()));
    assert_eq!(picked.cf_api_token, "app");
    let picked = Config::load_with_priority(None, None, Some(env));
    assert_eq!(picked.cf_api_token, "env");
    let picked = Config::load_with_priority(None, None, None);
    assert!(picked.cf_api_token.is_empty());
    assert_eq!(picked.max_scripts, 10);
}

#[test]
fn user_config_path_is_under_home() {
    assert_eq!(Config::user_config_path("/home/ana"), "/home/ana/.config/qtunnel/config.json");
}

#[test]
fn env_lines_are_trimmed_split_at_first_equals_and_comments_skipped() {
    assert_eq!(
        env_assignment("  CF_API_TOKEN = abc=def \r"),
        Some(("CF_API_TOKEN".to_string(), "abc=def".to_string()))
    );
    assert_eq!(env_assignment("# CF_API_TOKEN=x"), None);
    assert_eq!(env_assignment("   "), None);
    assert_eq!(env_assignment(""), None);
    assert_eq!(env_assignment("NO_EQUALS"), None);
    assert_eq!(env_assignment("EMPTY="), Some(("EMPTY".to_string(), String::new())));
    assert_eq!(env_assignment("\u{3000}K=v\u{a0}"), Some(("K".to_string(), "v".to_string())));
}

#[test]
fn trim_matches_std() {
    for s in ["", " ", "a", " a ", "\t\na b\u{2028}", "\u{85}x\u{85}", "x\u{200b}"] {
        assert_eq!(trim_text(s), s.trim());
    }
}

#[test]
fn numbers_parse_as_std_does() {
    for s in ["0", "+7", "1000", "18446744073709551615", "18446744073709551616", "", "+", "-1", "12a", " 1", "007"] {
        assert_eq!(parse_u64(s), s.parse::<u64>().ok(), "input {:?}", s);
    }
}

#[test]
fn environment_settings_need_token_or_account() {
    assert!(config_from_environment(String::new(), String::new(), None, None, None, None, None).is_none());
    let cfg = config_from_environment(
        "tk".to_string(),
        String::new(),
        Some("/tmp/q.db".to_string()),
        Some("250".to_string()),
        Some("oops".to_string()),
        None,
        Some("http://proxy:1".to_string()),
    )
    .unwrap();
    assert_eq!(cfg.cf_api_token, "tk");
    assert_eq!(cfg.db_path, "/tmp/q.db");
    assert_eq!(cfg.cache_size, 250);
    assert_eq!(cfg.cache_ttl, 300);
    assert_eq!(cfg.log_level, "info");
    assert_eq!(cfg.max_scripts, 10);
    assert_eq!(cfg.proxy_url.as_deref(), Some("http://proxy:1"));
    assert!(!cfg.proxy_no_verify);
}
