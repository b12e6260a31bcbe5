use vstd::prelude::*;

use crate::cloud::{AnalyticsCount, AnalyticsSimple, ZoneAnalytics};

verus! {

/// Windows shorter than this many minutes are read in hourly groups, longer
/// ones in daily groups.
pub const DAILY_WINDOW_MINUTES: i64 = 1440;

/// The traffic figures of one group of the analytics answer; a figure the
/// answer lacks is zero.
#[derive(Debug, Clone, Copy)]
pub struct TrafficGroup {
    pub requests: u64,
    pub cached_requests: u64,
    pub bytes: u64,
    pub cached_bytes: u64,
    pub threats: u64,
    pub page_views: u64,
    pub uniques: u64,
}

/// One figure of a group.
#[derive(Debug, Clone, Copy, PartialEq, Eq, Structural)]
pub enum Metric {
    Requests,
    CachedRequests,
    Bytes,
    CachedBytes,
    Threats,
    PageViews,
    Uniques,
}

pub open spec fn metric(g: TrafficGroup, m: Metric) -> u64 {
    match m {
        Metric::Requests => g.requests,
        Metric::CachedRequests => g.cached_requests,
        Metric::Bytes => g.bytes,
        Metric::CachedBytes => g.cached_bytes,
        Metric::Threats => g.threats,
        Metric::PageViews => g.page_views,
        Metric::Uniques => g.uniques,
    }
}

/// The sum of one figure over all groups.
pub open spec fn total(groups: Seq<TrafficGroup>, m: Metric) -> nat
    decreases groups.len(),
{
    if groups.len() == 0 {
        0
    } else {
        total(groups.drop_last(), m) + metric(groups.last(), m) as nat
    }
}

/// `n`, held at the largest `u64`.
pub open spec fn capped(n: nat) -> u64 {
    if n > u64::MAX {
        u64::MAX
    } else {
        n as u64
    }
}

/// The part of `all` that is not `cached`, never below zero.
pub open spec fn uncached(all: u64, cached: u64) -> u64 {
    if cached <= all {
        (all - cached) as u64
    } else {
        0
    }
}

/// Whether a window of `since_minutes` is read in hourly groups.
pub fn uses_hourly_groups(since_minutes: i64) -> (r: bool)
    ensures
        r == (since_minutes < DAILY_WINDOW_MINUTES),
{
    since_minutes < DAILY_WINDOW_MINUTES
}

fn add_capped(acc: u64, x: u64) -> (r: u64)
    ensures
        r == capped(acc as nat + x as nat),
{
    if acc > u64::MAX - x {
        u64::MAX
    } else {
        acc + x
    }
}

/// The totals of a zone: each figure summed over the groups (held at the
/// largest `u64`), with the uncached parts derived.
pub fn aggregate_traffic(groups: &Vec<TrafficGroup>) -> (r: ZoneAnalytics)
    ensures
        r.requests.all == capped(total(groups@, Metric::Requests)),
        r.requests.cached == capped(total(groups@, Metric::CachedRequests)),
        r.requests.uncached == uncached(r.requests.all, r.requests.cached),
        r.bandwidth.all == capped(total(groups@, Metric::Bytes)),
        r.bandwidth.cached == capped(total(groups@, Metric::CachedBytes)),
        r.bandwidth.uncached == uncached(r.bandwidth.all, r.bandwidth.cached),
        r.threats.all == capped(total(groups@, Metric::Threats)),
        r.pageviews.all == capped(total(groups@, Metric::PageViews)),
        r.uniques.all == capped(total(groups@, Metric::Uniques)),
{
    let mut requests: u64 = 0;
    let mut cached_requests: u64 = 0;
    let mut bytes: u64 = 0;
    let mut cached_bytes: u64 = 0;
    let mut threats: u64 = 0;
    let mut page_views: u64 = 0;
    let mut uniques: u64 = 0;
    let mut i: usize = 0;
    while i < groups.len()
        invariant
            i <= groups@.len(),
            requests == capped(total(groups@.take(i as int), Metric::Requests)),
            cached_requests == capped(total(groups@.take(i as int), Metric::CachedRequests)),
            bytes == capped(total(groups@.take(i as int), Metric::Bytes)),
            cached_bytes == capped(total(groups@.take(i as int), Metric::CachedBytes)),
            threats == capped(total(groups@.take(i as int), Metric::Threats)),
            page_views == capped(total(groups@.take(i as int), Metric::PageViews)),
            uniques == capped(total(groups@.take(i as int), Metric::Uniques)),
        decreases groups@.len() - i,
    {
        let g = groups[i];
        assert(groups@.take(i as int + 1).drop_last() =~= groups@.take(i as int));
        requests = add_capped(requests, g.requests);
        cached_requests = add_capped(cached_requests, g.cached_requests);
        bytes = add_capped(bytes, g.bytes);
        cached_bytes = add_capped(cached_bytes, g.cached_bytes);
        threats = add_capped(threats, g.threats);
        page_views = add_capped(page_views, g.page_views);
        uniques = add_capped(uniques, g.uniques);
        i = i + 1;
    }
    assert(groups@.take(i as int) =~= groups@);
    ZoneAnalytics {
        requests: AnalyticsCount::from_totals(requests, cached_requests),
        bandwidth: AnalyticsCount::from_totals(bytes, cached_bytes),
        threats: AnalyticsSimple { all: threats },
        uniques: AnalyticsSimple { all: uniques },
        pageviews: AnalyticsSimple { all: page_views },
    }
}

} // verus!
