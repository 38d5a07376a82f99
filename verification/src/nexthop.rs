//! The resolved forwarding decision for a destination: local termination at
//! this daemon, or a remote forwarder with an advertised distance and a
//! handle on its connection's send queue.

use crate::connection::{conn_info_eq, ConnInfoView, SwbusConnInfo, SwbusConnProxy};
use crate::message::{
    decrement_ttl, is_response_to, wire_to_mgmt_type, Body, ManagementRequest,
    ManagementRequestType, NextHopType, PathViewChoice, ResponseBody, SwbusMessage,
};
use crate::multiplexer::{export_entry_matches, export_kept, SwbusMultiplexer};
use crate::result::{error_code_of, SwbusError, SwbusErrorCode};
use vstd::prelude::*;
use vstd::string::StringExecFns;

verus! {

/// What a local terminus decides for a delivered message.
pub enum LocalDecision {
    /// The destination names a service this daemon does not host: reply
    /// NoRoute.
    RespondNoRoute,
    /// A ping to the daemon itself: reply success.
    RespondPing,
    /// A route-table query to the daemon itself: reply with the snapshot.
    RespondRoutes,
    /// A management request of an unknown type: reply InvalidArgs.
    RespondInvalidArgs,
    /// Anything else addressed to the daemon itself is dropped silently,
    /// which keeps looped messages from echoing forever.
    Drop,
}

/// The decision a local terminus takes on a message, as a function of the
/// destination's service component and the body alone. An address with an
/// empty service pair denotes the bus daemon itself; one with a service
/// component names a local service this daemon does not host, so the local
/// hop answers NoRoute for it.
pub open spec fn local_decision(m: SwbusMessage) -> LocalDecision {
    if m.header.destination@.service_type.len() > 0 {
        LocalDecision::RespondNoRoute
    } else {
        match m.body {
            Body::PingRequest(_) => LocalDecision::RespondPing,
            Body::ManagementRequest(req) => if wire_to_mgmt_type(req.request) == Some(
                ManagementRequestType::SwbusdGetRoutes,
            ) {
                LocalDecision::RespondRoutes
            } else {
                LocalDecision::RespondInvalidArgs
            },
            _ => LocalDecision::Drop,
        }
    }
}

/// Whether the decision produces a response at all.
pub open spec fn local_responds(d: LocalDecision) -> bool {
    !(d is Drop)
}

/// The error code the response carries, per decision.
pub open spec fn local_decision_code(d: LocalDecision) -> SwbusErrorCode {
    match d {
        LocalDecision::RespondNoRoute => SwbusErrorCode::NoRoute,
        LocalDecision::RespondPing => SwbusErrorCode::Okay,
        LocalDecision::RespondRoutes => SwbusErrorCode::Okay,
        LocalDecision::RespondInvalidArgs => SwbusErrorCode::InvalidArgs,
        LocalDecision::Drop => SwbusErrorCode::Okay,
    }
}

/// The response carries a snapshot of the given route table: one row per
/// table entry, in order.
pub open spec fn response_snapshots_table(
    resp: SwbusMessage,
    routes: Seq<crate::multiplexer::RouteEntry>,
) -> bool {
    &&& resp.body is Response
    &&& resp.body->Response_0.response_body is Some
    &&& resp.body->Response_0.response_body->0 is RouteQueryResult
    &&& ({
        let entries = resp.body->Response_0.response_body->0->RouteQueryResult_0.entries@;
        entries.len() == routes.len() && forall|i: int|
            0 <= i < routes.len() ==> export_entry_matches(#[trigger] entries[i], routes[i])
    })
}

/// What holds after a message terminates at this daemon, relating the result
/// to the decision: a decision that responds yields exactly one response,
/// correlated with the message's id, addressed back to its source, carrying
/// the decision's error code and stamped with the next fresh id; a drop
/// yields nothing and leaves the multiplexer untouched.
pub open spec fn local_outcome_holds(
    r: Result<Option<SwbusMessage>, SwbusError>,
    pre: SwbusMultiplexer,
    post: SwbusMultiplexer,
    message: SwbusMessage,
) -> bool {
    let d = local_decision(message);
    if local_responds(d) {
        &&& r is Ok
        &&& r->Ok_0 is Some
        &&& is_response_to(
            r->Ok_0->0,
            message.header,
            PathViewChoice::RequestDestination,
            local_decision_code(d),
            pre.id_generator.counter + 1,
        )
        &&& post.id_generator.counter == pre.id_generator.counter + 1
        &&& (d is RespondNoRoute ==> r->Ok_0->0.body->Response_0.error_message@
            == "Route not found"@ && r->Ok_0->0.body->Response_0.response_body is None)
        &&& (d is RespondPing ==> r->Ok_0->0.body->Response_0.error_message@.len() == 0
            && r->Ok_0->0.body->Response_0.response_body is None)
        &&& (d is RespondRoutes ==> r->Ok_0->0.body->Response_0.error_message@.len() == 0
            && response_snapshots_table(r->Ok_0->0, pre.routes@))
    } else {
        &&& r is Ok
        &&& r->Ok_0 is None
        &&& post.id_generator == pre.id_generator
    }
}

/// What holds after a remote hop carries a message: with only one TTL unit
/// left the message dies here, drawing exactly one Unreachable reply stamped
/// from the daemon's own address; otherwise the message, one hop spent, is
/// appended to the connection's send queue, or refused unchanged when that
/// queue is saturated.
pub open spec fn remote_outcome_holds(
    r: Result<Option<SwbusMessage>, SwbusError>,
    pre: SwbusMultiplexer,
    post: SwbusMultiplexer,
    message: SwbusMessage,
    qi: int,
) -> bool {
    if message.header.ttl == 1 {
        &&& r is Ok
        &&& r->Ok_0 is Some
        &&& is_response_to(
            r->Ok_0->0,
            message.header,
            PathViewChoice::Given(pre.my_sp@),
            SwbusErrorCode::Unreachable,
            pre.id_generator.counter + 1,
        )
        &&& r->Ok_0->0.body->Response_0.error_message@ == "TTL expired"@
        &&& post.queues == pre.queues
        &&& post.id_generator.counter == pre.id_generator.counter + 1
    } else {
        let q = pre.queues@[qi];
        &&& post.id_generator == pre.id_generator
        &&& post.queues@.len() == pre.queues@.len()
        &&& (forall|i: int|
            0 <= i < pre.queues@.len() && i != qi ==> post.queues@[i] == pre.queues@[i])
        &&& if q.messages@.len() < q.capacity {
            &&& r is Ok
            &&& r->Ok_0 is None
            &&& post.queues@[qi].messages@ == q.messages@.push(decrement_ttl(message))
            &&& post.queues@[qi].info == q.info
            &&& post.queues@[qi].capacity == q.capacity
        } else {
            &&& r is Err
            &&& r->Err_0 is Internal
            &&& error_code_of(r->Err_0) == SwbusErrorCode::ResourceExhausted
            &&& post.queues == pre.queues
        }
    }
}

/// A next hop: `Local` terminates at this daemon; `Remote` forwards on a
/// connection, decrementing TTL.
pub struct SwbusNextHop {
    pub nh_type: NextHopType,
    pub conn_info: Option<SwbusConnInfo>,
    pub conn_proxy: Option<SwbusConnProxy>,
    pub hop_count: u32,
}

/// A local next hop: no connection, distance zero.
pub open spec fn is_local_nexthop(nh: SwbusNextHop) -> bool {
    &&& nh.nh_type is Local
    &&& nh.conn_info is None
    &&& nh.conn_proxy is None
    &&& nh.hop_count == 0
}

/// A well-formed next hop against a pool of `queue_count` connection queues:
/// a local hop carries nothing, a remote hop carries a descriptor and a proxy
/// whose index lies in the pool.
pub open spec fn nexthop_wf(nh: SwbusNextHop, queue_count: int) -> bool {
    match nh.nh_type {
        NextHopType::Local => is_local_nexthop(nh),
        NextHopType::Remote => nh.conn_info is Some && nh.conn_proxy is Some
            && nh.conn_proxy->0.queue_index < queue_count,
    }
}

/// Whether a next hop references the connection described by `info`.
pub open spec fn references_conn(nh: SwbusNextHop, info: ConnInfoView) -> bool {
    nh.conn_info is Some && conn_info_eq(nh.conn_info->0@, info)
}

impl SwbusNextHop {
    /// A remote next hop: forwards on the given connection, `hop_count` away.
    pub fn new_remote(conn_info: SwbusConnInfo, conn_proxy: SwbusConnProxy, hop_count: u32) -> (r:
        SwbusNextHop)
        ensures
            r.nh_type is Remote,
            r.conn_info == Some(conn_info),
            r.conn_proxy == Some(conn_proxy),
            r.hop_count == hop_count,
    {
        SwbusNextHop {
            nh_type: NextHopType::Remote,
            conn_info: Some(conn_info),
            conn_proxy: Some(conn_proxy),
            hop_count,
        }
    }

    /// The local next hop: terminates at this daemon.
    pub fn new_local() -> (r: SwbusNextHop)
        ensures
            is_local_nexthop(r),
    {
        SwbusNextHop {
            nh_type: NextHopType::Local,
            conn_info: None,
            conn_proxy: None,
            hop_count: 0,
        }
    }

    /// Carry a message one step: a local hop hands it to this daemon's
    /// terminus logic; a remote hop spends one TTL unit and, unless the TTL
    /// ran out, submits the message to the connection's send queue.
    ///
    /// `Ok(Some(resp))` obliges the caller to route `resp`; `Ok(None)` means
    /// handled or dropped; `Err` means the hop itself failed (saturated send
    /// queue).
    pub fn queue_message(&self, mux: &mut SwbusMultiplexer, message: SwbusMessage) -> (r: Result<
        Option<SwbusMessage>,
        SwbusError,
    >)
        requires
            nexthop_wf(*self, old(mux).queues@.len() as int),
            old(mux).id_generator.counter < u64::MAX,
            self.nh_type is Remote ==> message.header.ttl >= 1,
        ensures
            final(mux).routes == old(mux).routes,
            final(mux).my_routes == old(mux).my_routes,
            final(mux).my_sp == old(mux).my_sp,
            self.nh_type is Local ==> final(mux).queues == old(mux).queues
                && local_outcome_holds(r, *old(mux), *final(mux), message),
            self.nh_type is Remote ==> remote_outcome_holds(
                r,
                *old(mux),
                *final(mux),
                message,
                self.conn_proxy->0.queue_index as int,
            ),
    {
        match self.nh_type {
            NextHopType::Local => self.process_local_message(mux, message),
            NextHopType::Remote => {
                let mut fwd = message;
                fwd.header.ttl = fwd.header.ttl - 1;
                if fwd.header.ttl == 0 {
                    let id = mux.generate_message_id();
                    let my_sp = mux.get_my_service_path();
                    let response = SwbusMessage::new_response(
                        &fwd,
                        Some(&my_sp),
                        SwbusErrorCode::Unreachable,
                        "TTL expired",
                        id,
                        None,
                    );
                    Ok(Some(response))
                } else {
                    let proxy = self.conn_proxy.unwrap();
                    match mux.try_queue(proxy, fwd) {
                        Ok(_) => Ok(None),
                        Err(e) => Err(e),
                    }
                }
            },
        }
    }

    /// Terminate a message at this daemon: an unhosted service draws a
    /// NoRoute reply; the daemon itself answers pings and route queries and
    /// silently drops everything else.
    fn process_local_message(&self, mux: &mut SwbusMultiplexer, message: SwbusMessage) -> (r:
        Result<Option<SwbusMessage>, SwbusError>)
        requires
            old(mux).id_generator.counter < u64::MAX,
        ensures
            final(mux).routes == old(mux).routes,
            final(mux).my_routes == old(mux).my_routes,
            final(mux).my_sp == old(mux).my_sp,
            final(mux).queues == old(mux).queues,
            local_outcome_holds(r, *old(mux), *final(mux), message),
    {
        if !message.header.destination.service_type.as_str().is_empty() {
            let id = mux.generate_message_id();
            let response = SwbusMessage::new_response(
                &message,
                None,
                SwbusErrorCode::NoRoute,
                "Route not found",
                id,
                None,
            );
            return Ok(Some(response));
        }
        match &message.body {
            Body::PingRequest(_) => {
                match self.process_ping_request(mux, &message) {
                    Ok(response) => Ok(Some(response)),
                    Err(e) => Err(e),
                }
            },
            Body::ManagementRequest(mgmt_request) => {
                let response = self.process_mgmt_request(mux, &message, mgmt_request);
                Ok(Some(response))
            },
            _ => Ok(None),
        }
    }

    /// Answer a ping to the daemon itself with a success response.
    fn process_ping_request(&self, mux: &mut SwbusMultiplexer, message: &SwbusMessage) -> (r:
        Result<SwbusMessage, SwbusError>)
        requires
            old(mux).id_generator.counter < u64::MAX,
        ensures
            final(mux).routes == old(mux).routes,
            final(mux).my_routes == old(mux).my_routes,
            final(mux).my_sp == old(mux).my_sp,
            final(mux).queues == old(mux).queues,
            final(mux).id_generator.counter == old(mux).id_generator.counter + 1,
            r is Ok,
            is_response_to(
                r->Ok_0,
                message.header,
                PathViewChoice::RequestDestination,
                SwbusErrorCode::Okay,
                old(mux).id_generator.counter + 1,
            ),
            r->Ok_0.body->Response_0.error_message@.len() == 0,
            r->Ok_0.body->Response_0.response_body is None,
    {
        proof {
            reveal_strlit("");
        }
        let id = mux.generate_message_id();
        Ok(SwbusMessage::new_response(message, None, SwbusErrorCode::Okay, "", id, None))
    }

    /// Answer a management request to the daemon itself: a route query draws
    /// the route-table snapshot; an unknown request type draws InvalidArgs.
    fn process_mgmt_request(
        &self,
        mux: &mut SwbusMultiplexer,
        message: &SwbusMessage,
        mgmt_request: &ManagementRequest,
    ) -> (r: SwbusMessage)
        requires
            old(mux).id_generator.counter < u64::MAX,
        ensures
            final(mux).routes == old(mux).routes,
            final(mux).my_routes == old(mux).my_routes,
            final(mux).my_sp == old(mux).my_sp,
            final(mux).queues == old(mux).queues,
            final(mux).id_generator.counter == old(mux).id_generator.counter + 1,
            ({
                let known = wire_to_mgmt_type(mgmt_request.request) == Some(
                    ManagementRequestType::SwbusdGetRoutes,
                );
                if known {
                    is_response_to(
                        r,
                        message.header,
                        PathViewChoice::RequestDestination,
                        SwbusErrorCode::Okay,
                        old(mux).id_generator.counter + 1,
                    ) && r.body->Response_0.error_message@.len() == 0
                        && response_snapshots_table(r, old(mux).routes@)
                } else {
                    is_response_to(
                        r,
                        message.header,
                        PathViewChoice::RequestDestination,
                        SwbusErrorCode::InvalidArgs,
                        old(mux).id_generator.counter + 1,
                    )
                }
            }),
    {
        proof {
            reveal_strlit("");
        }
        match ManagementRequestType::from_wire(mgmt_request.request) {
            Some(ManagementRequestType::SwbusdGetRoutes) => {
                let routes = mux.export_routes(None);
                proof {
                    crate::multiplexer::lemma_export_filter_none(mux.routes@);
                }
                let id = mux.generate_message_id();
                SwbusMessage::new_response(
                    message,
                    None,
                    SwbusErrorCode::Okay,
                    "",
                    id,
                    Some(ResponseBody::RouteQueryResult(routes)),
                )
            },
            None => {
                let id = mux.generate_message_id();
                SwbusMessage::new_response(
                    message,
                    None,
                    SwbusErrorCode::InvalidArgs,
                    "Invalid management request",
                    id,
                    None,
                )
            },
        }
    }

    /// The kind of this next hop.
    pub fn nh_type(&self) -> (r: NextHopType)
        ensures
            r == self.nh_type,
    {
        self.nh_type
    }

    /// The descriptor of the connection a remote hop forwards on.
    pub fn conn_info(&self) -> (r: &Option<SwbusConnInfo>)
        ensures
            r == self.conn_info,
    {
        &self.conn_info
    }

    /// The send-queue handle of a remote hop.
    pub fn conn_proxy(&self) -> (r: &Option<SwbusConnProxy>)
        ensures
            r == self.conn_proxy,
    {
        &self.conn_proxy
    }

    /// The advertised distance of this hop.
    pub fn hop_count(&self) -> (r: u32)
        ensures
            r == self.hop_count,
    {
        self.hop_count
    }
}

impl Clone for SwbusNextHop {
    fn clone(&self) -> (r: Self)
        ensures
            r == *self,
    {
        SwbusNextHop {
            nh_type: self.nh_type,
            conn_info: match &self.conn_info {
                Some(info) => Some(info.clone()),
                None => None,
            },
            conn_proxy: self.conn_proxy,
            hop_count: self.hop_count,
        }
    }
}

} // verus!
