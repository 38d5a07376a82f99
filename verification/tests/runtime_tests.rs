use swbus::connection::{ConnectionType, SwbusConnInfo};
use swbus::edge_runtime::{
    common_bridge_sp, get_npu_ipv4, get_npu_ipv6, get_slot_id, RuntimeData, SwbusEdgeRuntime,
};
use swbus::message::{
    Body, DataRequest, ManagementRequest, ManagementRequestArg, ManagementRequestType,
    PingRequest, RequestResponse, ResponseBody, SwbusMessage, SwbusMessageHeader,
};
use swbus::multiplexer::{RouteConfig, RouteScope};
use swbus::nexthop::SwbusNextHop;
use swbus::result::SwbusErrorCode;
use swbus::service_path::ServicePath;
use swbus::simple_client::{MessageBody, SimpleSwbusEdgeClient};

fn sp(text: &str) -> ServicePath {
    ServicePath::from_string(text).unwrap()
}

fn runtime() -> SwbusEdgeRuntime {
    SwbusEdgeRuntime::new(
        "http://127.0.0.1:23606".to_string(),
        sp("region-a.cluster-a.10.0.0.2-dpu0"),
    )
}

fn ping(source: &str, destination: &str, id: u64) -> SwbusMessage {
    SwbusMessage {
        header: SwbusMessageHeader::new(sp(source), sp(destination), id),
        body: Body::PingRequest(PingRequest {}),
    }
}

#[test]
fn ping_round_trip() {
    let mut rt = runtime();
    rt.mux.set_my_routes(vec![RouteConfig {
        key: sp("region-a.cluster-a.10.0.0.2-dpu0"),
        scope: RouteScope::Cluster,
    }]);
    // The prober listens at its own address for the reply; the daemon's
    // terminus answers the ping itself.
    let mut prober = SimpleSwbusEdgeClient::new(
        &mut rt,
        sp("region-a.cluster-a.10.0.0.1-dpu0/testsvc/0/ping/0"),
        true,
        false,
    );

    rt.send(ping(
        "region-a.cluster-a.10.0.0.1-dpu0/testsvc/0/ping/0",
        "region-a.cluster-a.10.0.0.2-dpu0/local-mgmt/0",
        77,
    ))
    .unwrap();

    // Exactly one OK response comes back to the prober.
    let reply = prober.recv(&mut rt).unwrap();
    assert!(reply.destination.eq_path(&sp(
        "region-a.cluster-a.10.0.0.1-dpu0/testsvc/0/ping/0"
    )));
    match reply.body {
        MessageBody::Response { request_id, error_code, .. } => {
            assert_eq!(request_id, 77);
            assert_eq!(error_code, SwbusErrorCode::Okay);
        }
        _ => panic!("expected a response"),
    }
    assert!(prober.recv(&mut rt).is_none());
}

#[test]
fn ttl_expiry_leaves_queue_empty() {
    let mut rt = runtime();
    rt.mux.set_my_routes(vec![RouteConfig {
        key: sp("region-a.cluster-a.10.0.0.2-dpu0"),
        scope: RouteScope::Cluster,
    }]);
    let ci = SwbusConnInfo::new_client(
        ConnectionType::Cluster,
        "127.0.0.1:8080".to_string(),
        sp("region-a.cluster-a.10.0.0.3-dpu0"),
        sp("region-a.cluster-a.10.0.0.2-dpu0"),
    );
    let proxy = rt.mux.add_connection(ci.clone(), 16);
    rt.mux.register_route(
        sp("region-a.cluster-a.10.0.0.3-dpu0"),
        SwbusNextHop::new_remote(ci.clone(), proxy, 5),
        RouteScope::Cluster,
    );

    let mut msg = ping(
        "region-a.cluster-a.10.0.0.1-dpu0/testsvc/0/ping/0",
        "region-a.cluster-a.10.0.0.3-dpu0/local-mgmt/0",
        5,
    );
    msg.header.ttl = 1;

    let response = rt.dispatch(msg).unwrap().unwrap();
    match response.body {
        Body::Response(rr) => {
            assert_eq!(rr.error_code, SwbusErrorCode::Unreachable.to_wire());
            assert_eq!(rr.error_message, "TTL expired");
            assert_eq!(rr.request_id, 5);
        }
        _ => panic!("expected a response"),
    }
    assert_eq!(rt.mux.queues[0].messages.len(), 0);
}

#[test]
fn no_route_to_local_service() {
    let mut rt = runtime();
    rt.mux.set_my_routes(vec![RouteConfig {
        key: sp("region-a.cluster-a.10.0.0.2-dpu0"),
        scope: RouteScope::Cluster,
    }]);

    let msg = ping(
        "region-a.cluster-a.10.0.0.1-dpu0/testsvc/0/ping/0",
        "region-a.cluster-a.10.0.0.2-dpu0/testsvc/0/unknown-svc/0",
        9,
    );
    let response = rt.dispatch(msg).unwrap().unwrap();
    match response.body {
        Body::Response(rr) => {
            assert_eq!(rr.error_code, SwbusErrorCode::NoRoute.to_wire());
            assert_eq!(rr.error_message, "Route not found");
            assert_eq!(rr.request_id, 9);
        }
        _ => panic!("expected a response"),
    }
}

#[test]
fn unknown_body_to_daemon_is_dropped() {
    let mut rt = runtime();
    rt.mux.set_my_routes(vec![RouteConfig {
        key: sp("region-a.cluster-a.10.0.0.2-dpu0"),
        scope: RouteScope::Cluster,
    }]);

    let msg = SwbusMessage {
        header: SwbusMessageHeader::new(
            sp("region-a.cluster-a.10.0.0.1-dpu0/testsvc/0/ping/0"),
            sp("region-a.cluster-a.10.0.0.2-dpu0"),
            11,
        ),
        body: Body::DataRequest(DataRequest { payload: vec![42] }),
    };
    let result = rt.dispatch(msg).unwrap();
    assert!(result.is_none());
}

#[test]
fn sink_bounces_stray_traffic() {
    let mut rt = runtime();
    let sink_addr = "region-a.cluster-a.10.0.0.2-dpu0/hamgrd/0";
    let src_addr = "region-a.cluster-a.10.0.0.1-dpu0/testsvc/0/cli/0";
    let mut sink = SimpleSwbusEdgeClient::new(&mut rt, sp(sink_addr), true, true);
    let mut observer = SimpleSwbusEdgeClient::new(&mut rt, sp(src_addr), true, false);

    // A stray message for an uninstantiated actor lands in the sink's
    // mailbox.
    let stray = SwbusMessage {
        header: SwbusMessageHeader::new(
            sp(src_addr),
            sp("region-a.cluster-a.10.0.0.2-dpu0/hamgrd/0/dpu/7"),
            21,
        ),
        body: Body::DataRequest(DataRequest { payload: vec![7] }),
    };
    rt.handlers[0].mailbox.push(stray);

    // The sink answers NoRoute on its own and delivers nothing to its actor.
    assert!(sink.recv(&mut rt).is_none());

    let bounced = observer.recv(&mut rt).unwrap();
    match bounced.body {
        MessageBody::Response { request_id, error_code, error_message, .. } => {
            assert_eq!(request_id, 21);
            assert_eq!(error_code, SwbusErrorCode::NoRoute);
            assert_eq!(error_message, "Route not found");
        }
        _ => panic!("expected a response"),
    }
    // Exactly one: nothing else follows.
    assert!(observer.recv(&mut rt).is_none());
}

#[test]
fn route_snapshot_lists_all_routes() {
    let mut rt = runtime();
    rt.mux.set_my_routes(vec![
        RouteConfig { key: sp("region-a.cluster-a.10.0.0.2-dpu0"), scope: RouteScope::Cluster },
        RouteConfig {
            key: sp("region-a.cluster-a.10.0.0.2-dpu0/testsvc/0"),
            scope: RouteScope::Cluster,
        },
    ]);
    let ci = SwbusConnInfo::new_client(
        ConnectionType::Cluster,
        "127.0.0.1:8080".to_string(),
        sp("region-a.cluster-a.10.0.0.3-dpu0"),
        sp("region-a.cluster-a.10.0.0.2-dpu0"),
    );
    let proxy = rt.mux.add_connection(ci.clone(), 16);
    rt.mux.register_route(
        sp("region-a.cluster-a.10.0.0.3-dpu0"),
        SwbusNextHop::new_remote(ci.clone(), proxy, 5),
        RouteScope::Cluster,
    );

    let query = SwbusMessage {
        header: SwbusMessageHeader::new(
            sp("region-a.cluster-a.10.0.0.1-dpu0/testsvc/0/cli/0"),
            sp("region-a.cluster-a.10.0.0.2-dpu0"),
            31,
        ),
        body: Body::ManagementRequest(ManagementRequest {
            request: ManagementRequestType::SwbusdGetRoutes.to_wire(),
            arguments: vec![],
        }),
    };
    let response = rt.dispatch(query).unwrap().unwrap();
    match response.body {
        Body::Response(rr) => {
            assert_eq!(rr.error_code, SwbusErrorCode::Okay.to_wire());
            assert_eq!(rr.request_id, 31);
            match rr.response_body {
                Some(ResponseBody::RouteQueryResult(result)) => {
                    assert_eq!(result.entries.len(), 3);
                    let mut local_count = 0;
                    for entry in &result.entries {
                        if entry.nh_id.is_empty() {
                            assert_eq!(entry.hop_count, 0);
                            local_count += 1;
                        } else {
                            assert_eq!(entry.hop_count, 5);
                            assert_eq!(entry.nh_id, "cluster-127.0.0.1:8080");
                        }
                    }
                    assert_eq!(local_count, 2);
                }
                _ => panic!("expected a route query result"),
            }
        }
        _ => panic!("expected a response"),
    }
}

#[test]
fn unknown_management_request_draws_invalid_args() {
    let mut rt = runtime();
    rt.mux.set_my_routes(vec![RouteConfig {
        key: sp("region-a.cluster-a.10.0.0.2-dpu0"),
        scope: RouteScope::Cluster,
    }]);
    let query = SwbusMessage {
        header: SwbusMessageHeader::new(
            sp("region-a.cluster-a.10.0.0.1-dpu0/testsvc/0/cli/0"),
            sp("region-a.cluster-a.10.0.0.2-dpu0"),
            33,
        ),
        body: Body::ManagementRequest(ManagementRequest { request: 999, arguments: vec![] }),
    };
    let response = rt.dispatch(query).unwrap().unwrap();
    match response.body {
        Body::Response(rr) => {
            assert_eq!(rr.error_code, SwbusErrorCode::InvalidArgs.to_wire());
            assert_eq!(rr.request_id, 33);
        }
        _ => panic!("expected a response"),
    }
}

#[test]
fn client_send_stamps_id_and_source() {
    let mut rt = runtime();
    let ci = SwbusConnInfo::new_client(
        ConnectionType::Cluster,
        "127.0.0.1:8080".to_string(),
        sp("region-a.cluster-a.10.0.0.3-dpu0"),
        sp("region-a.cluster-a.10.0.0.2-dpu0"),
    );
    let proxy = rt.mux.add_connection(ci.clone(), 16);
    rt.mux.register_route(
        sp("region-a.cluster-a.10.0.0.3-dpu0"),
        SwbusNextHop::new_remote(ci.clone(), proxy, 5),
        RouteScope::Cluster,
    );
    let own = sp("region-a.cluster-a.10.0.0.2-dpu0/testsvc/0/cli/0");
    let mut client = SimpleSwbusEdgeClient::new(&mut rt, own.clone(), true, false);
    assert!(client.get_service_path().eq_path(&own));

    let id = client
        .send(
            &mut rt,
            swbus::simple_client::OutgoingMessage {
                destination: sp("region-a.cluster-a.10.0.0.3-dpu0/dest-svc/0"),
                body: MessageBody::Request { payload: vec![9, 9] },
            },
        )
        .unwrap();
    assert_eq!(id, 1);

    let forwarded = &rt.mux.queues[0].messages[0];
    assert_eq!(forwarded.header.id, 1);
    assert!(forwarded.header.source.eq_path(&own));
    assert_eq!(forwarded.header.ttl, 62);
    match &forwarded.body {
        Body::DataRequest(d) => assert_eq!(d.payload, vec![9, 9]),
        _ => panic!("expected a data request"),
    }
}

#[test]
fn client_translates_management_request() {
    let mut rt = runtime();
    let own = sp("region-a.cluster-a.10.0.0.2-dpu0/hamgrd/0");
    let mut client = SimpleSwbusEdgeClient::new(&mut rt, own.clone(), true, false);
    let msg = SwbusMessage {
        header: SwbusMessageHeader::new(
            sp("region-a.cluster-a.10.0.0.1-dpu0/cli/0"),
            own.clone(),
            41,
        ),
        body: Body::ManagementRequest(ManagementRequest {
            request: ManagementRequestType::SwbusdGetRoutes.to_wire(),
            arguments: vec![ManagementRequestArg {
                name: "verbose".to_string(),
                value: "1".to_string(),
            }],
        }),
    };
    rt.handlers[0].mailbox.push(msg);
    let incoming = client.recv(&mut rt).unwrap();
    assert_eq!(incoming.id, 41);
    match incoming.body {
        MessageBody::ManagementRequest { request, args } => {
            assert_eq!(request, ManagementRequestType::SwbusdGetRoutes);
            assert_eq!(args.len(), 1);
            assert_eq!(args[0].0, "verbose");
            assert_eq!(args[0].1, "1");
        }
        _ => panic!("expected a management request"),
    }
}

#[test]
fn client_decodes_unknown_error_code_as_unknown() {
    let mut rt = runtime();
    let own = sp("region-a.cluster-a.10.0.0.2-dpu0/hamgrd/0");
    let mut client = SimpleSwbusEdgeClient::new(&mut rt, own.clone(), true, false);
    let msg = SwbusMessage {
        header: SwbusMessageHeader::new(
            sp("region-a.cluster-a.10.0.0.1-dpu0/cli/0"),
            own.clone(),
            43,
        ),
        body: Body::Response(RequestResponse {
            request_id: 40,
            error_code: 12345,
            error_message: "???".to_string(),
            response_body: None,
        }),
    };
    rt.handlers[0].mailbox.push(msg);
    let incoming = client.recv(&mut rt).unwrap();
    match incoming.body {
        MessageBody::Response { request_id, error_code, .. } => {
            assert_eq!(request_id, 40);
            assert_eq!(error_code, SwbusErrorCode::UnknownError);
        }
        _ => panic!("expected a response"),
    }
}

#[test]
fn error_codes_keep_their_wire_values() {
    let pairs = [
        (SwbusErrorCode::Okay, 0),
        (SwbusErrorCode::InvalidArgs, 1),
        (SwbusErrorCode::NoRoute, 2),
        (SwbusErrorCode::Unreachable, 3),
        (SwbusErrorCode::ResourceExhausted, 4),
        (SwbusErrorCode::Timeout, 5),
        (SwbusErrorCode::UnknownError, 6),
    ];
    for (code, wire) in pairs {
        assert_eq!(code.to_wire(), wire);
        assert_eq!(SwbusErrorCode::from_wire(wire), Some(code));
    }
    assert_eq!(SwbusErrorCode::from_wire(-1), None);
    assert_eq!(SwbusErrorCode::from_wire(7), None);
}

#[test]
fn runtime_env_accessors() {
    let mut rt = runtime();
    rt.set_runtime_env(RuntimeData::new(3, Some(0x0a000001), None));
    assert_eq!(get_slot_id(&rt), 3);
    assert_eq!(get_npu_ipv4(&rt), Some(0x0a000001));
    assert_eq!(get_npu_ipv6(&rt), None);
    let env = rt.get_runtime_env().as_ref().unwrap();
    assert_eq!(env.dpu_id(), 3);
    assert_eq!(env.npu_ipv4(), Some(0x0a000001));
    assert_eq!(env.npu_ipv6(), None);
}

#[test]
fn common_bridge_sp_names_db_and_table() {
    let rt = runtime();
    let bridge = common_bridge_sp(&rt, "DPU_APPL_DB", "DASH_HA_SET_TABLE");
    assert_eq!(
        bridge.to_path_string(),
        "region-a.cluster-a.10.0.0.2-dpu0/swss-common-bridge/DPU_APPL_DB|DASH_HA_SET_TABLE"
    );
}

#[test]
fn duplicate_handler_is_refused() {
    let mut rt = runtime();
    let addr = sp("region-a.cluster-a.10.0.0.2-dpu0/svc/0");
    assert!(rt.add_handler(addr.clone()).is_ok());
    assert!(rt.add_handler(addr.clone()).is_err());
    assert!(rt.add_private_handler(addr.clone()).is_err());
    assert_eq!(rt.handlers.len(), 1);
}

#[test]
fn saturated_mailbox_draws_resource_exhausted() {
    let mut rt = runtime();
    let addr = sp("region-a.cluster-a.10.0.0.2-dpu0/svc/0");
    rt.add_handler(addr.clone()).unwrap();
    let capacity = rt.handlers[0].capacity;
    for i in 0..capacity {
        let filler = ping(
            "region-a.cluster-a.10.0.0.1-dpu0/t/0/s/0",
            "region-a.cluster-a.10.0.0.2-dpu0/svc/0",
            i as u64,
        );
        rt.handlers[0].mailbox.push(filler);
    }
    let overflow = ping(
        "region-a.cluster-a.10.0.0.1-dpu0/t/0/s/0",
        "region-a.cluster-a.10.0.0.2-dpu0/svc/0",
        999,
    );
    let response = rt.dispatch(overflow).unwrap().unwrap();
    match response.body {
        Body::Response(rr) => {
            assert_eq!(rr.error_code, SwbusErrorCode::ResourceExhausted.to_wire());
            assert_eq!(rr.request_id, 999);
        }
        _ => panic!("expected a response"),
    }
    assert_eq!(rt.handlers[0].mailbox.len(), capacity);
}

#[test]
fn mailbox_preserves_sender_order() {
    let mut rt = runtime();
    let own = sp("region-a.cluster-a.10.0.0.2-dpu0/svc/0");
    let mut client = SimpleSwbusEdgeClient::new(&mut rt, own.clone(), true, false);
    for id in [1u64, 2, 3] {
        let msg = SwbusMessage {
            header: SwbusMessageHeader::new(
                sp("region-a.cluster-a.10.0.0.1-dpu0/t/0/s/0"),
                own.clone(),
                id,
            ),
            body: Body::DataRequest(DataRequest { payload: vec![id as u8] }),
        };
        rt.send(msg).unwrap();
    }
    assert_eq!(client.recv(&mut rt).unwrap().id, 1);
    assert_eq!(client.recv(&mut rt).unwrap().id, 2);
    assert_eq!(client.recv(&mut rt).unwrap().id, 3);
    assert!(client.recv(&mut rt).is_none());
}

#[test]
fn new_response_addresses_and_correlates() {
    let request = SwbusMessage {
        header: SwbusMessageHeader::new(
            sp("region-a.cluster-a.10.0.0.1-dpu0/t/0/s/0"),
            sp("region-a.cluster-a.10.0.0.2-dpu0/u/0/v/0"),
            55,
        ),
        body: Body::PingRequest(PingRequest {}),
    };
    let response = SwbusMessage::new_response(
        &request,
        None,
        SwbusErrorCode::Okay,
        "",
        90,
        None,
    );
    assert_eq!(response.header.id, 90);
    assert_eq!(response.header.ttl, 63);
    assert!(response
        .header
        .source
        .eq_path(&sp("region-a.cluster-a.10.0.0.2-dpu0/u/0/v/0")));
    assert!(response
        .header
        .destination
        .eq_path(&sp("region-a.cluster-a.10.0.0.1-dpu0/t/0/s/0")));
    match response.body {
        Body::Response(rr) => {
            assert_eq!(rr.request_id, 55);
            assert_eq!(rr.error_code, 0);
            assert_eq!(rr.error_message, "");
        }
        _ => panic!("expected a response"),
    }
}
