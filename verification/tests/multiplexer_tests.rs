use swbus::connection::{ConnectionType, SwbusConnInfo};
use swbus::message::{Body, NextHopType, PingRequest, SwbusMessage, SwbusMessageHeader};
use swbus::multiplexer::{RouteConfig, RouteScope, SwbusMultiplexer};
use swbus::nexthop::SwbusNextHop;
use swbus::service_path::ServicePath;

fn sp(text: &str) -> ServicePath {
    ServicePath::from_string(text).unwrap()
}

fn conn_info(addr: &str) -> SwbusConnInfo {
    SwbusConnInfo::new_client(
        ConnectionType::Cluster,
        addr.to_string(),
        sp("regiona.clustera.10.0.0.2-dpu0"),
        sp("regiona.clustera.10.0.0.1-dpu0"),
    )
}

fn ping(source: &str, destination: &str, ttl: u32) -> SwbusMessage {
    SwbusMessage {
        header: SwbusMessageHeader {
            version: 1,
            id: 0,
            flag: 0,
            ttl,
            source: sp(source),
            destination: sp(destination),
        },
        body: Body::PingRequest(PingRequest {}),
    }
}

#[test]
fn message_ids_are_strictly_increasing() {
    let mut mux = SwbusMultiplexer::default();
    let a = mux.generate_message_id();
    let b = mux.generate_message_id();
    let c = mux.generate_message_id();
    assert_eq!(a, 1);
    assert_eq!(b, 2);
    assert_eq!(c, 3);
    assert!(a < b && b < c);
}

#[test]
fn route_prefers_longest_prefix() {
    let mut mux = SwbusMultiplexer::default();
    let ci = conn_info("127.0.0.1:8080");
    let proxy = mux.add_connection(ci.clone(), 16);
    mux.register_route(
        sp("region-a.cluster-a.10.0.0.2-dpu0"),
        SwbusNextHop::new_remote(ci.clone(), proxy, 3),
        RouteScope::Cluster,
    );
    mux.set_my_routes(vec![RouteConfig {
        key: sp("region-a.cluster-a.10.0.0.2-dpu0/testsvc/0"),
        scope: RouteScope::Cluster,
    }]);

    // The five-component local key beats the three-component remote key.
    let (hop, matched) = mux.route(&sp("region-a.cluster-a.10.0.0.2-dpu0/testsvc/0/x/1"));
    assert!(matched);
    assert_eq!(hop.nh_type(), NextHopType::Local);

    // A destination under the node only matches the remote route.
    let (hop, matched) = mux.route(&sp("region-a.cluster-a.10.0.0.2-dpu0/other/0"));
    assert!(matched);
    assert_eq!(hop.nh_type(), NextHopType::Remote);
}

#[test]
fn route_prefers_smaller_hop_count_on_equal_key() {
    let mut mux = SwbusMultiplexer::default();
    let ci_far = conn_info("127.0.0.1:8080");
    let ci_near = conn_info("127.0.0.1:9090");
    let proxy_far = mux.add_connection(ci_far.clone(), 16);
    let proxy_near = mux.add_connection(ci_near.clone(), 16);
    let key = sp("region-a.cluster-a.10.0.0.9-dpu0");
    mux.register_route(
        key.clone(),
        SwbusNextHop::new_remote(ci_far.clone(), proxy_far, 7),
        RouteScope::Cluster,
    );
    // A closer announcement for the same key replaces the farther one.
    mux.register_route(
        key.clone(),
        SwbusNextHop::new_remote(ci_near.clone(), proxy_near, 2),
        RouteScope::Cluster,
    );
    let (hop, matched) = mux.route(&sp("region-a.cluster-a.10.0.0.9-dpu0/svc/0"));
    assert!(matched);
    assert_eq!(hop.hop_count(), 2);
    assert!(hop.conn_info().as_ref().unwrap().eq_info(&ci_near));

    // An equally distant announcement does not displace the installed one.
    mux.register_route(
        key.clone(),
        SwbusNextHop::new_remote(ci_far.clone(), proxy_far, 2),
        RouteScope::Cluster,
    );
    let (hop, _) = mux.route(&sp("region-a.cluster-a.10.0.0.9-dpu0/svc/0"));
    assert!(hop.conn_info().as_ref().unwrap().eq_info(&ci_near));
}

#[test]
fn no_route_yields_synthetic_local() {
    let mux = SwbusMultiplexer::default();
    let (hop, matched) = mux.route(&sp("region-a.cluster-a.10.0.0.2-dpu0"));
    assert!(!matched);
    assert_eq!(hop.nh_type(), NextHopType::Local);
    assert!(hop.conn_info().is_none());
    assert_eq!(hop.hop_count(), 0);
}

#[test]
fn teardown_purges_routes_for_conn() {
    let mut mux = SwbusMultiplexer::default();
    let ci = conn_info("127.0.0.1:8080");
    let other = conn_info("127.0.0.1:9191");
    let proxy = mux.add_connection(ci.clone(), 16);
    let proxy_other = mux.add_connection(other.clone(), 16);
    mux.register_route(
        sp("region-a.cluster-a.10.0.0.3-dpu0"),
        SwbusNextHop::new_remote(ci.clone(), proxy, 1),
        RouteScope::Cluster,
    );
    mux.register_route(
        sp("region-a.cluster-a.10.0.0.4-dpu0"),
        SwbusNextHop::new_remote(other.clone(), proxy_other, 1),
        RouteScope::Cluster,
    );

    let (_, matched) = mux.route(&sp("region-a.cluster-a.10.0.0.3-dpu0/svc/0"));
    assert!(matched);

    mux.unregister_routes_for_conn(&ci);

    // No resolution reaches the dropped connection any more.
    let (hop, matched) = mux.route(&sp("region-a.cluster-a.10.0.0.3-dpu0/svc/0"));
    assert!(!matched);
    assert!(hop.conn_info().is_none());

    // The other connection's route survives.
    let (hop, matched) = mux.route(&sp("region-a.cluster-a.10.0.0.4-dpu0/svc/0"));
    assert!(matched);
    assert!(hop.conn_info().as_ref().unwrap().eq_info(&other));
}

#[test]
fn try_queue_refuses_when_saturated() {
    let mut mux = SwbusMultiplexer::default();
    let ci = conn_info("127.0.0.1:8080");
    let proxy = mux.add_connection(ci.clone(), 1);
    let first = ping("a.b.c/x/0/s/0", "d.e.f/x/0/s/0", 5);
    let second = ping("a.b.c/x/0/s/0", "d.e.f/x/0/s/0", 5);
    assert!(mux.try_queue(proxy, first).is_ok());
    assert!(mux.try_queue(proxy, second).is_err());
    assert_eq!(mux.queues[0].messages.len(), 1);
}

#[test]
fn remote_forward_decrements_ttl_and_queues() {
    let mut mux = SwbusMultiplexer::default();
    let ci = conn_info("127.0.0.1:8080");
    let proxy = mux.add_connection(ci.clone(), 16);
    let nexthop = SwbusNextHop::new_remote(ci.clone(), proxy, 5);
    let msg = ping(
        "region-a.cluster-a.10.0.0.1-dpu0/testsvc/0/ping/0",
        "region-a.cluster-a.10.0.0.3-dpu0/local-mgmt/0",
        63,
    );
    let result = nexthop.queue_message(&mut mux, msg).unwrap();
    assert!(result.is_none());
    assert_eq!(mux.queues[0].messages.len(), 1);
    assert_eq!(mux.queues[0].messages[0].header.ttl, 62);
}

#[test]
fn export_routes_optionally_filters_by_prefix() {
    let mut mux = SwbusMultiplexer::default();
    let ci = conn_info("127.0.0.1:8080");
    let proxy = mux.add_connection(ci.clone(), 16);
    mux.set_my_routes(vec![RouteConfig {
        key: sp("region-a.cluster-a.10.0.0.2-dpu0"),
        scope: RouteScope::Cluster,
    }]);
    mux.register_route(
        sp("region-b.cluster-b.10.0.0.7-dpu0"),
        SwbusNextHop::new_remote(ci.clone(), proxy, 4),
        RouteScope::Region,
    );

    let all = mux.export_routes(None);
    assert_eq!(all.entries.len(), 2);

    let filter = sp("region-b.cluster-b.10.0.0.7-dpu0");
    let some = mux.export_routes(Some(&filter));
    assert_eq!(some.entries.len(), 1);
    assert_eq!(some.entries[0].hop_count, 4);
    assert_eq!(some.entries[0].nh_type, NextHopType::Remote);
    assert_eq!(some.entries[0].nh_scope, RouteScope::Region);
    assert_eq!(some.entries[0].nh_id, "cluster-127.0.0.1:8080");
}
