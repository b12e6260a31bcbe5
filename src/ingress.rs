use vstd::prelude::*;

use crate::cloud::QuickBindResult;
use crate::models::ApiError;
use crate::text::{decimal, decimal_string};

verus! {

/// The JSON document type of `serde_json`, carried through untouched.
#[verifier::external_type_specification]
#[verifier::external_body]
pub struct ExJsonValue(serde_json::Value);

/// A hostname already has a rule in the tunnel configuration.
pub const HOSTNAME_TAKEN: u32 = 1020;

/// No rule of the tunnel configuration has the hostname.
pub const HOSTNAME_NOT_BOUND: u32 = 1021;

/// One entry of a tunnel's ingress list. An entry without hostname is the
/// catch-all, which belongs at the end.
#[derive(Debug, Clone)]
pub struct CfIngressRule {
    pub hostname: Option<String>,
    pub service: String,
    pub path: Option<String>,
    pub origin_request: Option<serde_json::Value>,
}

/// The rule is for hostname `h`.
pub open spec fn serves(r: CfIngressRule, h: Seq<char>) -> bool {
    r.hostname matches Some(x) && x@ == h
}

/// The rule is a catch-all.
pub open spec fn is_catch_all(r: CfIngressRule) -> bool {
    r.hostname is None
}

/// The catch-all that answers 404.
pub open spec fn is_default_catch_all(r: CfIngressRule) -> bool {
    &&& r.hostname is None
    &&& r.service@ == "http_status:404"@
    &&& r.path is None
    &&& r.origin_request is None
}

/// The rule that binds `h` to `service`.
pub open spec fn is_binding(r: CfIngressRule, h: Seq<char>, service: Seq<char>) -> bool {
    &&& r.hostname matches Some(x) && x@ == h
    &&& r.service@ == service
    &&& r.path is None
    &&& r.origin_request is None
}

pub open spec fn has_rule_for(rules: Seq<CfIngressRule>, h: Seq<char>) -> bool {
    exists|i: int| 0 <= i < rules.len() && serves(#[trigger] rules[i], h)
}

/// `p` is the position of the first catch-all.
pub open spec fn is_first_catch_all(rules: Seq<CfIngressRule>, p: int) -> bool {
    &&& 0 <= p < rules.len()
    &&& is_catch_all(rules[p])
    &&& forall|j: int| 0 <= j < p ==> !is_catch_all(#[trigger] rules[j])
}

/// The rules without those for hostname `h`, order kept.
pub open spec fn without_host(rules: Seq<CfIngressRule>, h: Seq<char>) -> Seq<CfIngressRule>
    decreases rules.len(),
{
    if rules.len() == 0 {
        rules
    } else {
        let rest = without_host(rules.drop_last(), h);
        if serves(rules.last(), h) {
            rest
        } else {
            rest.push(rules.last())
        }
    }
}

/// The hostname that a binding gets: the zone itself, or a subdomain of it.
pub fn bind_hostname(subdomain: &str, zone_name: &str) -> (r: String)
    ensures
        r@ == if subdomain@.len() == 0 {
            zone_name@
        } else {
            subdomain@ + "."@ + zone_name@
        },
{
    if subdomain.is_empty() {
        String::from_str(zone_name)
    } else {
        String::from_str(subdomain).concat(".").concat(zone_name)
    }
}

/// The address of a local service.
pub fn local_service_url(protocol: &str, port: u16) -> (r: String)
    ensures
        r@ == protocol@ + "://localhost:"@ + decimal(port as nat),
{
    let digits = decimal_string(port as u64);
    String::from_str(protocol).concat("://localhost:").concat(digits.as_str())
}

/// The DNS name that a hostname bound to a tunnel points at.
pub fn tunnel_cname_target(tunnel_id: &str) -> (r: String)
    ensures
        r@ == tunnel_id@ + ".cfargotunnel.com"@,
{
    String::from_str(tunnel_id).concat(".cfargotunnel.com")
}

fn default_catch_all() -> (r: CfIngressRule)
    ensures
        is_default_catch_all(r),
{
    CfIngressRule {
        hostname: None,
        service: String::from_str("http_status:404"),
        path: None,
        origin_request: None,
    }
}

fn serves_host(r: &CfIngressRule, h: &String) -> (b: bool)
    ensures
        b == serves(*r, h@),
{
    match &r.hostname {
        Some(x) => *x == *h,
        None => false,
    }
}

/// Adds a rule binding `hostname` to `service`, in front of the first
/// catch-all; where there is no catch-all, the rule and a 404 catch-all are
/// appended. Refused, with nothing changed, when the hostname already has
/// a rule.
pub fn add_binding(ingress: &mut Vec<CfIngressRule>, hostname: String, service: String) -> (r:
    Result<(), ApiError>)
    ensures
        has_rule_for(old(ingress)@, hostname@) ==> {
            &&& r matches Err(e) && e.code == HOSTNAME_TAKEN && e.message@ == "Hostname "@
                + hostname@ + " already exists in tunnel config"@
            &&& final(ingress)@ == old(ingress)@
        },
        !has_rule_for(old(ingress)@, hostname@) ==> {
            &&& r is Ok
            &&& if exists|p: int| is_first_catch_all(old(ingress)@, p) {
                let p = choose|p: int| is_first_catch_all(old(ingress)@, p);
                &&& final(ingress)@.len() == old(ingress)@.len() + 1
                &&& final(ingress)@.take(p) == old(ingress)@.take(p)
                &&& is_binding(final(ingress)@[p], hostname@, service@)
                &&& final(ingress)@.skip(p + 1) == old(ingress)@.skip(p)
            } else {
                &&& final(ingress)@.len() == old(ingress)@.len() + 2
                &&& final(ingress)@.take(old(ingress)@.len() as int) == old(ingress)@
                &&& is_binding(final(ingress)@[old(ingress)@.len() as int], hostname@, service@)
                &&& is_default_catch_all(final(ingress)@[old(ingress)@.len() + 1int])
            }
        },
{
    let mut i: usize = 0;
    let mut catch_all: Option<usize> = None;
    while i < ingress.len()
        invariant
            i <= ingress@.len(),
            ingress@ == old(ingress)@,
            forall|j: int| 0 <= j < i ==> !serves(#[trigger] ingress@[j], hostname@),
            match catch_all {
                Some(p) => p < i && is_first_catch_all(ingress@, p as int),
                None => forall|j: int| 0 <= j < i ==> !is_catch_all(#[trigger] ingress@[j]),
            },
        decreases ingress@.len() - i,
    {
        if serves_host(&ingress[i], &hostname) {
            let message = String::from_str("Hostname ").concat(hostname.as_str()).concat(
                " already exists in tunnel config",
            );
            return Err(ApiError { code: HOSTNAME_TAKEN, message });
        }
        if catch_all.is_none() && ingress[i].hostname.is_none() {
            catch_all = Some(i);
        }
        i = i + 1;
    }
    let rule = CfIngressRule { hostname: Some(hostname), service, path: None, origin_request: None };
    match catch_all {
        Some(p) => {
            proof {
                let q = choose|q: int| is_first_catch_all(old(ingress)@, q);
                if q < p {
                    assert(!is_catch_all(old(ingress)@[q]));
                } else if q > p {
                    assert(!is_catch_all(old(ingress)@[p as int]));
                }
            }
            ingress.insert(p, rule);
            assert(ingress@.take(p as int) =~= old(ingress)@.take(p as int));
            assert(ingress@.skip(p + 1) =~= old(ingress)@.skip(p as int));
        },
        None => {
            ingress.push(rule);
            ingress.push(default_catch_all());
            assert(ingress@.take(old(ingress)@.len() as int) =~= old(ingress)@);
            proof {
                if exists|p: int| is_first_catch_all(old(ingress)@, p) {
                    let p = choose|p: int| is_first_catch_all(old(ingress)@, p);
                    assert(is_catch_all(old(ingress)@[p]));
                }
            }
        },
    }
    Ok(())
}

/// Removes every rule for `hostname`; then, where the list is empty or ends
/// with a rule that has a hostname, appends a 404 catch-all. Refused when no
/// rule has the hostname.
pub fn remove_binding(ingress: Vec<CfIngressRule>, hostname: &str) -> (r: Result<
    Vec<CfIngressRule>,
    ApiError,
>)
    ensures
        !has_rule_for(ingress@, hostname@) ==> (r matches Err(e) && e.code == HOSTNAME_NOT_BOUND
            && e.message@ == "Hostname "@ + hostname@ + " not found in tunnel config"@),
        has_rule_for(ingress@, hostname@) ==> (r matches Ok(out) && {
            let kept = without_host(ingress@, hostname@);
            if kept.len() == 0 || !is_catch_all(kept.last()) {
                &&& out@.len() == kept.len() + 1
                &&& out@.drop_last() == kept
                &&& is_default_catch_all(out@.last())
            } else {
                out@ == kept
            }
        }),
{
    let key = String::from_str(hostname);
    let ghost before = ingress@;
    let total = ingress.len();
    let mut rest = ingress;
    let mut kept: Vec<CfIngressRule> = Vec::new();
    let mut found = false;
    let mut i: usize = 0;
    while rest.len() > 0
        invariant
            key@ == hostname@,
            before.len() == total,
            i + rest@.len() == before.len(),
            rest@ == before.skip(i as int),
            kept@ == without_host(before.take(i as int), hostname@),
            found == has_rule_for(before.take(i as int), hostname@),
        decreases rest@.len(),
    {
        let ghost prefix = before.take(i as int);
        let ghost next = before.take(i as int + 1);
        assert(next.drop_last() =~= prefix);
        assert(rest@[0] == before[i as int]);
        let rule = rest.remove(0);
        assert(rest@ =~= before.skip(i as int + 1));
        if serves_host(&rule, &key) {
            found = true;
            assert(serves(next[i as int], hostname@));
        } else {
            kept.push(rule);
            assert(found == has_rule_for(next, hostname@)) by {
                if has_rule_for(next, hostname@) {
                    let j = choose|j: int| 0 <= j < next.len() && serves(#[trigger] next[j], hostname@);
                    if j < i {
                        assert(prefix[j] == next[j]);
                    }
                }
            }
        }
        assert(found == has_rule_for(next, hostname@)) by {
            if has_rule_for(prefix, hostname@) {
                let j = choose|j: int| 0 <= j < prefix.len() && serves(#[trigger] prefix[j], hostname@);
                assert(next[j] == prefix[j]);
            }
        }
        i = i + 1;
    }
    assert(before.take(i as int) =~= before);
    if !found {
        let message = String::from_str("Hostname ").concat(hostname).concat(" not found in tunnel config");
        return Err(ApiError { code: HOSTNAME_NOT_BOUND, message });
    }
    let n = kept.len();
    if n == 0 || kept[n - 1].hostname.is_some() {
        let ghost k = kept@;
        kept.push(default_catch_all());
        assert(kept@.drop_last() =~= k);
    }
    Ok(kept)
}

/// The outcome of a binding: the DNS record's id, or the DNS failure where
/// the record could not be made (the ingress change stays).
pub fn bind_result(
    hostname: String,
    service: String,
    dns_record: Result<String, String>,
    tunnel_id: String,
) -> (r: QuickBindResult)
    ensures
        r.hostname@ == hostname@,
        r.service@ == service@,
        r.tunnel_id@ == tunnel_id@,
        r.dns_record_id@ == match dns_record {
            Ok(id) => id@,
            Err(e) => "DNS_ERROR: "@ + e@,
        },
{
    let dns_record_id = match dns_record {
        Ok(id) => id,
        Err(e) => String::from_str("DNS_ERROR: ").concat(e.as_str()),
    };
    QuickBindResult { hostname, service, dns_record_id, tunnel_id }
}

} // verus!
