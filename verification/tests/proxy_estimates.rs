use cost_model::model::{OperationKind, ParamId, ResourceEstimate};
use cost_model::proxy::proxy_cost_model;

fn params(a: Option<u64>, p: Option<u64>) -> Vec<(ParamId, u64)> {
    let mut v: Vec<(ParamId, u64)> = Vec::new();
    if let Some(a) = a {
        v.push((ParamId::Announcements, a));
    }
    if let Some(p) = p {
        v.push((ParamId::Proxies, p));
    }
    v
}

#[test]
fn remove_announcement_concrete() {
    let m = proxy_cost_model();
    let r = m
        .estimate(OperationKind::RemoveAnnouncement, &params(Some(3), Some(5)))
        .unwrap();
    assert_eq!(
        r,
        ResourceEstimate { compute: 40_133_000, reads: 2, writes: 2 }
    );
}

#[test]
fn anonymous_zero_param() {
    let m = proxy_cost_model();
    let r = m.estimate(OperationKind::Anonymous, &params(None, Some(0))).unwrap();
    assert_eq!(r.compute, 50_739_000);
    assert_eq!(r.reads, 2);
    assert_eq!(r.writes, 1);
}

#[test]
fn anonymous_large_param_exact() {
    let m = proxy_cost_model();
    let p: u64 = u32::MAX as u64;
    let r = m.estimate(OperationKind::Anonymous, &params(None, Some(p))).unwrap();
    assert_eq!(r.compute, 50_739_000 + 26_000 * p);
}

#[test]
fn anonymous_saturates_at_max() {
    let m = proxy_cost_model();
    let r = m
        .estimate(OperationKind::Anonymous, &params(None, Some(u64::MAX)))
        .unwrap();
    assert_eq!(r.compute, u64::MAX);
}

#[test]
fn proxy_exact() {
    let m = proxy_cost_model();
    let r = m.estimate(OperationKind::Proxy, &params(None, Some(7))).unwrap();
    assert_eq!(r.compute, 23_893_000 + 187_000 * 7);
    assert_eq!(r.reads, 1);
    assert_eq!(r.writes, 0);
}

#[test]
fn proxy_announced_exact() {
    let m = proxy_cost_model();
    let r = m
        .estimate(OperationKind::ProxyAnnounced, &params(Some(4), Some(9)))
        .unwrap();
    assert_eq!(r.compute, 55_170_000 + 639_000 * 4 + 180_000 * 9);
    assert_eq!(r.reads, 3);
    assert_eq!(r.writes, 2);
}

#[test]
fn reject_announcement_exact() {
    let m = proxy_cost_model();
    let r = m
        .estimate(OperationKind::RejectAnnouncement, &params(Some(2), Some(3)))
        .unwrap();
    assert_eq!(r.compute, 38_217_000 + 630_000 * 2 + 7_000 * 3);
    assert_eq!(r.reads, 2);
    assert_eq!(r.writes, 2);
}

#[test]
fn announce_exact() {
    let m = proxy_cost_model();
    let r = m
        .estimate(OperationKind::Announce, &params(Some(6), Some(1)))
        .unwrap();
    assert_eq!(r.compute, 51_960_000 + 640_000 * 6 + 179_000 * 1);
    assert_eq!(r.reads, 3);
    assert_eq!(r.writes, 2);
}

#[test]
fn add_proxy_exact() {
    let m = proxy_cost_model();
    let r = m.estimate(OperationKind::AddProxy, &params(None, Some(12))).unwrap();
    assert_eq!(r.compute, 37_175_000 + 241_000 * 12);
    assert_eq!(r.reads, 1);
    assert_eq!(r.writes, 1);
}

#[test]
fn remove_proxy_exact() {
    let m = proxy_cost_model();
    let r = m.estimate(OperationKind::RemoveProxy, &params(None, Some(2))).unwrap();
    assert_eq!(r.compute, 37_032_000 + 273_000 * 2);
}

#[test]
fn remove_proxies_exact() {
    let m = proxy_cost_model();
    let r = m.estimate(OperationKind::RemoveProxies, &params(None, Some(31))).unwrap();
    assert_eq!(r.compute, 35_841_000 + 189_000 * 31);
}

#[test]
fn kill_anonymous_exact() {
    let m = proxy_cost_model();
    let r = m.estimate(OperationKind::KillAnonymous, &params(None, Some(5))).unwrap();
    assert_eq!(r.compute, 37_929_000 + 186_000 * 5);
}

#[test]
fn extra_params_ignored() {
    let m = proxy_cost_model();
    let with_extra = m
        .estimate(OperationKind::Proxy, &params(Some(999), Some(7)))
        .unwrap();
    let without = m.estimate(OperationKind::Proxy, &params(None, Some(7))).unwrap();
    assert_eq!(with_extra, without);
}

#[test]
fn first_supplied_value_wins() {
    let m = proxy_cost_model();
    let mut ps: Vec<(ParamId, u64)> = Vec::new();
    ps.push((ParamId::Proxies, 2));
    ps.push((ParamId::Proxies, 99));
    let r = m.estimate(OperationKind::Proxy, &ps).unwrap();
    assert_eq!(r.compute, 23_893_000 + 187_000 * 2);
}

#[test]
fn monotonic_in_each_param() {
    let m = proxy_cost_model();
    let low = m
        .estimate(OperationKind::RemoveAnnouncement, &params(Some(3), Some(5)))
        .unwrap();
    let more_announcements = m
        .estimate(OperationKind::RemoveAnnouncement, &params(Some(4), Some(5)))
        .unwrap();
    let more_proxies = m
        .estimate(OperationKind::RemoveAnnouncement, &params(Some(3), Some(6)))
        .unwrap();
    assert!(low.compute <= more_announcements.compute);
    assert!(low.compute <= more_proxies.compute);
    assert_eq!(low.reads, more_announcements.reads);
    assert_eq!(low.writes, more_proxies.writes);
}

#[test]
fn repeated_calls_identical() {
    let m = proxy_cost_model();
    let r1 = m.estimate(OperationKind::Announce, &params(Some(8), Some(11)));
    let r2 = m.estimate(OperationKind::Announce, &params(Some(8), Some(11)));
    assert_eq!(r1, r2);
}
