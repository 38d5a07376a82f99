use swbus::connection::{ConnectionType, SwbusConnInfo};
use swbus::message::{
    Body, DataRequest, NextHopType, PingRequest, SwbusMessage, SwbusMessageHeader,
};
use swbus::multiplexer::{RouteConfig, RouteScope, SwbusMultiplexer};
use swbus::nexthop::SwbusNextHop;
use swbus::result::SwbusErrorCode;
use swbus::service_path::ServicePath;

fn sp(text: &str) -> ServicePath {
    ServicePath::from_string(text).unwrap()
}

fn cluster_conn_info() -> SwbusConnInfo {
    SwbusConnInfo::new_client(
        ConnectionType::Cluster,
        "127.0.0.1:8080".to_string(),
        sp("regiona.clustera.10.0.0.2-dpu0"),
        sp("regiona.clustera.10.0.0.1-dpu0"),
    )
}

#[test]
fn test_new_remote() {
    let conn_info = cluster_conn_info();
    let mut mux = SwbusMultiplexer::default();
    let proxy = mux.add_connection(conn_info.clone(), 16);
    let hop_count = 5;
    let nexthop = SwbusNextHop::new_remote(conn_info.clone(), proxy, hop_count);

    assert_eq!(nexthop.nh_type(), NextHopType::Remote);
    assert!(nexthop.conn_info().as_ref().unwrap().eq_info(&conn_info));
    assert_eq!(nexthop.hop_count(), hop_count);
}

#[test]
fn test_new_local() {
    let nexthop = SwbusNextHop::new_local();

    assert_eq!(nexthop.nh_type(), NextHopType::Local);
    assert!(nexthop.conn_info().is_none());
    assert!(nexthop.conn_proxy().is_none());
    assert_eq!(nexthop.hop_count(), 0);
}

#[test]
fn test_queue_message_drop() {
    let nexthop = SwbusNextHop::new_local();
    let mut mux = SwbusMultiplexer::default();
    let message = SwbusMessage {
        header: SwbusMessageHeader::new(
            sp("region-a.cluster-a.10.0.0.1-dpu0"),
            sp("region-a.cluster-a.10.0.0.2-dpu0"),
            1,
        ),
        body: Body::DataRequest(DataRequest { payload: vec![1, 2, 3] }),
    };
    let result = nexthop.queue_message(&mut mux, message).unwrap();
    assert!(result.is_none());
}

#[test]
fn test_queue_message_local_ping() {
    let nexthop = SwbusNextHop::new_local();
    let mut mux = SwbusMultiplexer::default();
    let route_config = RouteConfig {
        key: sp("region-a.cluster-a.10.0.0.2-dpu0"),
        scope: RouteScope::Cluster,
    };

    mux.set_my_routes(vec![route_config.clone()]);

    let source = sp("region-a.cluster-a.10.0.0.1-dpu0/testsvc/0/ping/0");
    let request_msg = SwbusMessage {
        header: SwbusMessageHeader::new(
            source.clone(),
            sp("region-a.cluster-a.10.0.0.2-dpu0/local-mgmt/0"),
            0,
        ),
        body: Body::PingRequest(PingRequest {}),
    };

    let result = nexthop.queue_message(&mut mux, request_msg);
    assert!(result.is_ok());
    let response = result.unwrap().unwrap();
    assert!(response.header.destination.eq_path(&source));
    match response.body {
        Body::Response(rr) => {
            assert_eq!(rr.error_code, SwbusErrorCode::Okay.to_wire());
            assert_eq!(rr.request_id, 0);
        }
        _ => panic!("Expected response message"),
    }
}

#[test]
fn test_queue_message_remote_ttl_expired() {
    let conn_info = cluster_conn_info();
    let mut mux = SwbusMultiplexer::default();
    let proxy = mux.add_connection(conn_info.clone(), 16);
    let hop_count = 5;
    let nexthop = SwbusNextHop::new_remote(conn_info.clone(), proxy, hop_count);
    let route_config = RouteConfig {
        key: sp("region-a.cluster-a.10.0.0.2-dpu0"),
        scope: RouteScope::Cluster,
    };

    mux.set_my_routes(vec![route_config.clone()]);

    let request_msg = SwbusMessage {
        header: SwbusMessageHeader {
            version: 1,
            id: 0,
            flag: 0,
            ttl: 1,
            source: sp("region-a.cluster-a.10.0.0.1-dpu0/testsvc/0/ping/0"),
            destination: sp("region-a.cluster-a.10.0.0.3-dpu0/local-mgmt/0"),
        },
        body: Body::PingRequest(PingRequest {}),
    };

    let result = nexthop.queue_message(&mut mux, request_msg);
    assert!(result.is_ok());
    let response = result.unwrap().unwrap();
    match response.body {
        Body::Response(response) => {
            assert_eq!(response.error_code, SwbusErrorCode::Unreachable.to_wire());
            assert_eq!(response.error_message, "TTL expired");
        }
        _ => panic!("Expected response message"),
    }
    // Nothing was queued for the remote peer.
    assert_eq!(mux.queues[0].messages.len(), 0);
}
