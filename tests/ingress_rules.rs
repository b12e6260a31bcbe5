use qtunnel::connector::{after_start, already_running, connector_args, connector_missing, start_failed, stays_tracked, stop_status, ProcessState, CONNECTOR_FAILED};
use qtunnel::cloud::{add_route, keep_shown_settings, route_from_request, CreateRouteRequest, RulesetInfo, ZoneSetting};
use qtunnel::rules::{find_zone_ruleset, flatten_rule, is_listed_ruleset, new_ruleset_name, RulesetRule};
use qtunnel::analytics::{aggregate_traffic, uses_hourly_groups, TrafficGroup};
use qtunnel::api::{answer_error_text, network_error, NetworkFailure};
use qtunnel::error::AppError;
use qtunnel::ingress::{
    add_binding, bind_hostname, bind_result, local_service_url, remove_binding, tunnel_cname_target,
    CfIngressRule, HOSTNAME_NOT_BOUND, HOSTNAME_TAKEN,
};

fn rule(host: Option<&str>, service: &str) -> CfIngressRule {
    CfIngressRule { hostname: host.map(String::from), service: service.to_string(), path: None, origin_request: None }
}

fn hosts(rules: &[CfIngressRule]) -> Vec<(Option<String>, String)> {
    rules.iter().map(|r| (r.hostname.clone(), r.service.clone())).collect()
}

#[test]
fn binding_goes_in_front_of_the_catch_all() {
    let mut rules = vec![rule(Some("a.example.com"), "http://localhost:1"), rule(None, "http_status:404")];
    add_binding(&mut rules, "b.example.com".to_string(), "http://localhost:2".to_string()).unwrap();
    assert_eq!(
        hosts(&rules),
        vec![
            (Some("a.example.com".to_string()), "http://localhost:1".to_string()),
            (Some("b.example.com".to_string()), "http://localhost:2".to_string()),
            (None, "http_status:404".to_string()),
        ]
    );
}

#[test]
fn binding_without_catch_all_appends_one() {
    let mut rules = Vec::new();
    add_binding(&mut rules, "x.example.com".to_string(), "tcp://localhost:22".to_string()).unwrap();
    assert_eq!(
        hosts(&rules),
        vec![
            (Some("x.example.com".to_string()), "tcp://localhost:22".to_string()),
            (None, "http_status:404".to_string()),
        ]
    );
}

#[test]
fn binding_an_existing_hostname_is_refused() {
    let mut rules = vec![rule(Some("a.example.com"), "s"), rule(None, "http_status:404")];
    let e = add_binding(&mut rules, "a.example.com".to_string(), "t".to_string()).unwrap_err();
    assert_eq!(e.code, HOSTNAME_TAKEN);
    assert_eq!(e.message, "Hostname a.example.com already exists in tunnel config");
    assert_eq!(rules.len(), 2);
}

#[test]
fn unbinding_removes_rules_and_keeps_a_catch_all_last() {
    let rules = vec![rule(Some("a"), "1"), rule(Some("b"), "2"), rule(Some("a"), "3")];
    let out = remove_binding(rules, "a").unwrap();
    assert_eq!(hosts(&out), vec![(Some("b".to_string()), "2".to_string()), (None, "http_status:404".to_string())]);
    let rules = vec![rule(Some("a"), "1"), rule(None, "http_status:503")];
    let out = remove_binding(rules, "a").unwrap();
    assert_eq!(hosts(&out), vec![(None, "http_status:503".to_string())]);
    let out = remove_binding(vec![rule(Some("a"), "1")], "a").unwrap();
    assert_eq!(hosts(&out), vec![(None, "http_status:404".to_string())]);
}

#[test]
fn unbinding_an_unknown_hostname_is_refused() {
    let e = remove_binding(vec![rule(None, "http_status:404")], "zzz").unwrap_err();
    assert_eq!(e.code, HOSTNAME_NOT_BOUND);
    assert_eq!(e.message, "Hostname zzz not found in tunnel config");
}

#[test]
fn binding_names_and_results() {
    assert_eq!(bind_hostname("", "example.com"), "example.com");
    assert_eq!(bind_hostname("app", "example.com"), "app.example.com");
    assert_eq!(local_service_url("http", 8080), "http://localhost:8080");
    assert_eq!(tunnel_cname_target("t-1"), "t-1.cfargotunnel.com");
    let ok = bind_result("h".to_string(), "s".to_string(), Ok("rec".to_string()), "t".to_string());
    assert_eq!(ok.dns_record_id, "rec");
    let failed = bind_result("h".to_string(), "s".to_string(), Err("quota".to_string()), "t".to_string());
    assert_eq!(failed.dns_record_id, "DNS_ERROR: quota");
    assert_eq!((failed.hostname.as_str(), failed.service.as_str(), failed.tunnel_id.as_str()), ("h", "s", "t"));
}

#[test]
fn network_failures_and_error_answers() {
    let e = network_error(NetworkFailure::Other, "dns failure".to_string());
    assert_eq!(e.code(), 1008);
    assert_eq!(e.message(), "Network error: dns failure");
    assert!(matches!(network_error(NetworkFailure::Timeout, String::new()), AppError::NetworkError(m) if m.contains("timed out")));
    assert!(matches!(network_error(NetworkFailure::Connect, String::new()), AppError::NetworkError(m) if m.contains("cannot reach")));
    assert_eq!(answer_error_text(None), "Unknown error");
    assert_eq!(answer_error_text(Some("bad zone".to_string())), "bad zone");
}

#[test]
fn traffic_groups_are_summed_and_capped() {
    let g = |r: u64, cr: u64, b: u64, cb: u64| TrafficGroup {
        requests: r,
        cached_requests: cr,
        bytes: b,
        cached_bytes: cb,
        threats: 1,
        page_views: 2,
        uniques: 3,
    };
    let a = aggregate_traffic(&vec![g(10, 4, 100, 30), g(5, 1, 50, 90)]);
    assert_eq!((a.requests.all, a.requests.cached, a.requests.uncached), (15, 5, 10));
    assert_eq!((a.bandwidth.all, a.bandwidth.cached, a.bandwidth.uncached), (150, 120, 30));
    assert_eq!((a.threats.all, a.pageviews.all, a.uniques.all), (2, 4, 6));
    let big = aggregate_traffic(&vec![g(u64::MAX, 0, 0, 5), g(1, 0, 0, 0)]);
    assert_eq!(big.requests.all, u64::MAX);
    assert_eq!(big.bandwidth.uncached, 0);
    let none = aggregate_traffic(&vec![]);
    assert_eq!(none.requests.all, 0);
    assert!(uses_hourly_groups(60));
    assert!(!uses_hourly_groups(1440));
}

fn ruleset(id: &str, phase: &str, kind: &str) -> RulesetInfo {
    RulesetInfo { id: id.to_string(), name: String::new(), phase: phase.to_string(), kind: kind.to_string(), version: "1".to_string() }
}

#[test]
fn listed_rulesets_are_zone_rulesets_of_user_phases() {
    assert!(is_listed_ruleset("zone", "http_request_dynamic_redirect"));
    assert!(is_listed_ruleset("zone", "http_response_headers_transform"));
    assert!(!is_listed_ruleset("managed", "http_request_transform"));
    assert!(!is_listed_ruleset("zone", "http_request_firewall_managed"));
}

#[test]
fn new_rules_join_the_first_zone_ruleset_of_their_phase() {
    let sets = vec![
        ruleset("a", "http_request_transform", "managed"),
        ruleset("b", "http_request_transform", "zone"),
        ruleset("c", "http_request_transform", "zone"),
    ];
    assert_eq!(find_zone_ruleset(&sets, "http_request_transform"), Some(1));
    assert_eq!(find_zone_ruleset(&sets, "http_config_settings"), None);
    assert_eq!(new_ruleset_name("http_config_settings"), "QTunnel http_config_settings");
    let rule = RulesetRule {
        id: "r1".to_string(),
        action: "redirect".to_string(),
        expression: "true".to_string(),
        description: "d".to_string(),
        enabled: true,
        action_parameters: None,
        last_updated: Some("now".to_string()),
    };
    let flat = flatten_rule(rule, "b".to_string(), "http_request_transform".to_string());
    assert_eq!((flat.id.as_str(), flat.ruleset_id.as_str(), flat.phase.as_str(), flat.action.as_str()), ("r1", "b", "http_request_transform", "redirect"));
    assert!(flat.enabled);
}

#[test]
fn connector_decisions() {
    assert!(stays_tracked(ProcessState::Running));
    assert!(!stays_tracked(ProcessState::Exited(Some(0))));
    assert!(!stays_tracked(ProcessState::Unknown));
    assert_eq!(connector_args("tok"), vec!["tunnel", "run", "--token", "tok"]);
    let started = after_start("t".to_string(), ProcessState::Running);
    assert!(started.success && started.data.unwrap().running);
    let exited = after_start("t".to_string(), ProcessState::Exited(Some(2))).error.unwrap();
    assert_eq!(exited.code, CONNECTOR_FAILED);
    assert_eq!(exited.message, "cloudflared exited right after starting (exit code: 2), check the proxy settings or the network");
    let killed = after_start("t".to_string(), ProcessState::Exited(None)).error.unwrap();
    assert!(killed.message.contains("(exit code: -1)"));
    assert_eq!(after_start("t".to_string(), ProcessState::Unknown).error.unwrap().code, CONNECTOR_FAILED);
    let again = already_running("t".to_string()).data.unwrap();
    assert!(again.running);
    assert_eq!(stop_status("t".to_string(), false).data.unwrap().message, "tunnel was not running");
    assert_eq!(stop_status("t".to_string(), true).data.unwrap().message, "tunnel stopped");
    assert_eq!(connector_missing::<String>().error.unwrap().code, CONNECTOR_FAILED);
    assert_eq!(start_failed::<()>("denied").error.unwrap().message, "could not start cloudflared: denied");
}

#[test]
fn only_shown_zone_settings_are_kept_in_order() {
    let setting = |id: &str| ZoneSetting { id: id.to_string(), value: serde_json::Value::Null, editable: true, modified_on: None };
    let kept = keep_shown_settings(vec![setting("brotli"), setting("waf"), setting("ssl"), setting("0rtt"), setting("minify")]);
    let ids: Vec<String> = kept.into_iter().map(|s| s.id).collect();
    assert_eq!(ids, vec!["brotli".to_string(), "ssl".to_string(), "minify".to_string()]);
    assert!(keep_shown_settings(vec![]).is_empty());
}

#[test]
fn routes_take_the_request_and_a_fresh_id() {
    let req = CreateRouteRequest {
        tunnel_id: "t".to_string(),
        hostname: "h.example.com".to_string(),
        service: "http://localhost:80".to_string(),
        path: Some("/api".to_string()),
        priority: 5,
    };
    let route = add_route(req.clone());
    assert_eq!(route.id.len(), 36);
    assert_eq!((route.tunnel_id.as_str(), route.hostname.as_str(), route.priority), ("t", "h.example.com", 5));
    let other = add_route(req.clone());
    assert_ne!(route.id, other.id);
    let fixed = route_from_request("r-1".to_string(), req);
    assert_eq!(fixed.id, "r-1");
    assert_eq!(fixed.path.as_deref(), Some("/api"));
}
