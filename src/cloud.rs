use vstd::prelude::*;

verus! {

/// A tunnel as the remote API lists it.
#[derive(Debug, Clone)]
pub struct Tunnel {
    pub id: String,
    pub name: String,
    pub status: String,
    pub account_tag: Option<String>,
    pub created_at: Option<String>,
    pub deleted_at: Option<String>,
    pub tun_type: Option<String>,
    pub remote_config: bool,
    pub conns_active_at: Option<String>,
    pub conns_inactive_at: Option<String>,
    pub connections: Vec<TunnelConnection>,
}

/// One edge connection of a tunnel.
#[derive(Debug, Clone)]
pub struct TunnelConnection {
    pub id: String,
    pub colo_name: Option<String>,
    pub is_pending_reconnect: bool,
    pub origin_ip: Option<String>,
    pub opened_at: Option<String>,
    pub client_id: Option<String>,
    pub client_version: Option<String>,
}

/// A zone (domain) of the account.
#[derive(Debug, Clone)]
pub struct Zone {
    pub id: String,
    pub name: String,
    pub status: String,
    pub paused: bool,
}

/// The outcome of binding a local service to a hostname.
#[derive(Debug, Clone)]
pub struct QuickBindResult {
    pub hostname: String,
    pub service: String,
    pub dns_record_id: String,
    pub tunnel_id: String,
}

/// The outcome of verifying an API token.
#[derive(Debug, Clone)]
pub struct TokenVerifyResult {
    pub id: String,
    pub status: String,
    pub not_before: Option<String>,
    pub expires_on: Option<String>,
    pub message: Option<String>,
    pub permissions: Vec<TokenPermission>,
}

/// One policy of an API token.
#[derive(Debug, Clone)]
pub struct TokenPermission {
    pub effect: String,
    pub resources: Vec<String>,
    pub permission_groups: Vec<String>,
}

/// Whether a local tunnel connector is running.
#[derive(Debug, Clone)]
pub struct TunnelRunStatus {
    pub tunnel_id: String,
    pub running: bool,
    pub message: String,
}

/// A DNS record of a zone.
#[derive(Debug, Clone)]
pub struct DnsRecord {
    pub id: String,
    pub zone_id: String,
    pub name: String,
    pub record_type: String,
    pub content: String,
    pub ttl: u32,
    pub proxied: bool,
}

/// A request for an edge certificate.
#[derive(Debug, Clone)]
pub struct CertificateRequest {
    pub zone_id: String,
    pub hostname: String,
    pub certificate_type: String,
}

/// The state of a bound local service.
#[derive(Debug, Clone, Copy, PartialEq, Eq, Structural)]
pub enum ServiceStatus {
    Active,
    Inactive,
    Error,
}

/// A request to bind a local service to a subdomain.
#[derive(Debug, Clone)]
pub struct BindServiceRequest {
    pub tunnel_id: String,
    pub name: String,
    pub local_addr: String,
    pub local_port: u16,
    pub subdomain: String,
}

/// A routing entry of a tunnel.
#[derive(Debug, Clone)]
pub struct Route {
    pub id: String,
    pub tunnel_id: String,
    pub hostname: String,
    pub service: String,
    pub path: Option<String>,
    pub priority: u32,
}

/// A request to add a routing entry.
#[derive(Debug, Clone)]
pub struct CreateRouteRequest {
    pub tunnel_id: String,
    pub hostname: String,
    pub service: String,
    pub path: Option<String>,
    pub priority: u32,
}

/// A firewall rule.
#[derive(Debug, Clone)]
pub struct WafRule {
    pub id: String,
    pub zone_id: String,
    pub name: String,
    pub description: String,
    pub expression: String,
    pub action: String,
    pub enabled: bool,
}

/// An address rule of a zone.
#[derive(Debug, Clone)]
pub struct IpRule {
    pub id: String,
    pub zone_id: String,
    pub rule_type: IpRuleType,
    pub ip: String,
    pub ip_range: Option<String>,
    pub enabled: bool,
}

#[derive(Debug, Clone, Copy, PartialEq, Eq, Structural)]
pub enum IpRuleType {
    Whitelist,
    Blacklist,
}

/// An IP access rule as the remote API returns it.
#[derive(Debug, Clone)]
pub struct CfAccessRule {
    pub id: String,
    pub mode: String,
    pub configuration: CfAccessRuleConfig,
    pub notes: String,
    pub created_on: Option<String>,
    pub modified_on: Option<String>,
}

#[derive(Debug, Clone)]
pub struct CfAccessRuleConfig {
    pub target: String,
    pub value: String,
}

#[derive(Debug, Clone)]
pub struct DdosSettings {
    pub zone_id: String,
    pub enabled: bool,
    pub sensitivity: String,
}

#[derive(Debug, Clone)]
pub struct RateLimit {
    pub id: String,
    pub zone_id: String,
    pub threshold: u32,
    pub period: u32,
    pub action: String,
}

/// Traffic totals of a zone over a period.
#[derive(Debug, Clone)]
pub struct ZoneAnalytics {
    pub requests: AnalyticsCount,
    pub bandwidth: AnalyticsCount,
    pub threats: AnalyticsSimple,
    pub uniques: AnalyticsSimple,
    pub pageviews: AnalyticsSimple,
}

#[derive(Debug, Clone, Copy)]
pub struct AnalyticsCount {
    pub all: u64,
    pub cached: u64,
    pub uncached: u64,
}

#[derive(Debug, Clone, Copy)]
pub struct AnalyticsSimple {
    pub all: u64,
}

/// A ruleset of a zone, in summary.
#[derive(Debug, Clone)]
pub struct RulesetInfo {
    pub id: String,
    pub name: String,
    pub phase: String,
    pub kind: String,
    pub version: String,
}

#[derive(Debug, Clone)]
pub struct PurgeResult {
    pub id: String,
}

/// Counters of the response cache.
#[derive(Debug, Clone, Copy)]
pub struct CacheStats {
    pub hits: u64,
    pub misses: u64,
    pub size: usize,
    pub capacity: usize,
}

impl AnalyticsCount {
    /// Totals with the uncached part derived: what is not cached, never below zero.
    pub fn from_totals(all: u64, cached: u64) -> (r: AnalyticsCount)
        ensures
            r.all == all,
            r.cached == cached,
            r.uncached == if cached <= all { (all - cached) as u64 } else { 0 },
    {
        let uncached = if cached <= all { all - cached } else { 0 };
        AnalyticsCount { all, cached, uncached }
    }
}

} // verus!

verus! {

/// One setting of a zone, with its value as the remote API gives it.
#[derive(Debug)]
pub struct ZoneSetting {
    pub id: String,
    pub value: serde_json::Value,
    pub editable: bool,
    pub modified_on: Option<String>,
}

/// The settings that the zone page shows.
pub open spec fn is_shown_setting(id: Seq<char>) -> bool {
    ||| id == "ssl"@
    ||| id == "min_tls_version"@
    ||| id == "always_use_https"@
    ||| id == "brotli"@
    ||| id == "minify"@
    ||| id == "early_hints"@
    ||| id == "browser_cache_ttl"@
    ||| id == "security_level"@
    ||| id == "automatic_https_rewrites"@
}

fn is_shown(id: &String) -> (r: bool)
    ensures
        r == is_shown_setting(id@),
{
    *id == String::from_str("ssl") || *id == String::from_str("min_tls_version") || *id
        == String::from_str("always_use_https") || *id == String::from_str("brotli") || *id
        == String::from_str("minify") || *id == String::from_str("early_hints") || *id
        == String::from_str("browser_cache_ttl") || *id == String::from_str("security_level")
        || *id == String::from_str("automatic_https_rewrites")
}

/// The shown settings among `all`, in their order.
pub open spec fn shown_settings(all: Seq<ZoneSetting>) -> Seq<ZoneSetting>
    decreases all.len(),
{
    if all.len() == 0 {
        all
    } else if is_shown_setting(all.last().id@) {
        shown_settings(all.drop_last()).push(all.last())
    } else {
        shown_settings(all.drop_last())
    }
}

/// Keeps the settings that the zone page shows.
pub fn keep_shown_settings(all: Vec<ZoneSetting>) -> (r: Vec<ZoneSetting>)
    ensures
        r@ == shown_settings(all@),
{
    let total = all.len();
    let ghost before = all@;
    let mut rest = all;
    let mut kept: Vec<ZoneSetting> = Vec::new();
    let mut i: usize = 0;
    while rest.len() > 0
        invariant
            before.len() == total,
            i + rest@.len() == before.len(),
            rest@ == before.skip(i as int),
            kept@ == shown_settings(before.take(i as int)),
        decreases rest@.len(),
    {
        assert(before.take(i as int + 1).drop_last() =~= before.take(i as int));
        assert(rest@[0] == before[i as int]);
        let s = rest.remove(0);
        assert(rest@ =~= before.skip(i as int + 1));
        if is_shown(&s.id) {
            kept.push(s);
        }
        i = i + 1;
    }
    assert(before.take(i as int) =~= before);
    kept
}

} // verus!

verus! {

/// A new routing entry with identifier `id`, as requested.
pub fn route_from_request(id: String, req: CreateRouteRequest) -> (r: Route)
    ensures
        r.id == id,
        r.tunnel_id == req.tunnel_id,
        r.hostname == req.hostname,
        r.service == req.service,
        r.path == req.path,
        r.priority == req.priority,
{
    Route {
        id,
        tunnel_id: req.tunnel_id,
        hostname: req.hostname,
        service: req.service,
        path: req.path,
        priority: req.priority,
    }
}

/// A new routing entry with a fresh random identifier.
pub fn add_route(req: CreateRouteRequest) -> (r: Route)
    ensures
        r.id@.len() == 36,
        r.tunnel_id == req.tunnel_id,
        r.hostname == req.hostname,
        r.service == req.service,
        r.path == req.path,
        r.priority == req.priority,
{
    route_from_request(crate::platform::new_uuid(), req)
}

} // verus!
