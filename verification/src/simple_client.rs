//! The actor-facing facade over the edge runtime: it hides infra messages
//! and id generation, answers pings and trace-route probes without waking
//! the actor, and in sink mode bounces stray traffic back with NoRoute.

use crate::edge_runtime::{
    find_handler, forwards_remotely, lemma_find_handler_bounds, lemma_find_handler_shape,
    popped_one, runtime_wf, send_outcome, SwbusEdgeRuntime, SWBUS_RECV_QUEUE_SIZE,
};
use crate::message::{
    wire_to_mgmt_type, Body, DataRequest, ManagementQueryResult, ManagementRequest,
    ManagementRequestType, MessageIdGenerator, RequestResponse, ResponseBody, SwbusMessage,
    SwbusMessageHeader, SWBUS_MESSAGE_TTL_DEFAULT, SWBUS_PROTO_VERSION,
};
use crate::result::{code_wire_value, wire_to_code, SwbusErrorCode, SwbusError};
use crate::service_path::{path_eq, PathView, ServicePath};
use vstd::prelude::*;

verus! {

/// The type used by the bus for message ids.
pub type MessageId = u64;

/// A simplified message body, as actors see it: infra messages are handled
/// away before one of these is delivered.
pub enum MessageBody {
    Request { payload: Vec<u8> },
    Response {
        request_id: MessageId,
        error_code: SwbusErrorCode,
        error_message: String,
        response_body: Option<MessageResponseBody>,
    },
    ManagementRequest { request: ManagementRequestType, args: Vec<(String, String)> },
}

/// The structured payload of a simplified response.
pub enum MessageResponseBody {
    ManagementQueryResult { payload: String },
}

/// A message received from another bus client.
pub struct IncomingMessage {
    pub id: MessageId,
    pub source: ServicePath,
    pub destination: ServicePath,
    pub body: MessageBody,
}

/// A message to send to another bus client.
pub struct OutgoingMessage {
    pub destination: ServicePath,
    pub body: MessageBody,
}

/// What the facade does with a delivered envelope.
enum HandleReceivedMessage {
    PassToActor(IncomingMessage),
    Respond(SwbusMessage),
    Ignore,
}

/// How the facade disposes of a delivered envelope: hand it to the actor,
/// answer it itself, or discard it.
pub enum ReceiveDisposition {
    Deliver,
    AutoRespond,
    Discard,
}

/// The disposition, as a function of the sink flag, the client's own address
/// and the envelope alone: a sink bounces anything not addressed to it;
/// pings and trace-route probes are answered in place; data, responses and
/// well-formed management requests go to the actor; a management request of
/// unknown type is dropped.
pub open spec fn receive_disposition(sink: bool, own: PathView, m: SwbusMessage) -> ReceiveDisposition {
    if sink && !path_eq(m.header.destination@, own) {
        ReceiveDisposition::AutoRespond
    } else {
        match m.body {
            Body::DataRequest(_) => ReceiveDisposition::Deliver,
            Body::Response(_) => ReceiveDisposition::Deliver,
            Body::PingRequest(_) => ReceiveDisposition::AutoRespond,
            Body::TraceRouteRequest(_) => ReceiveDisposition::AutoRespond,
            Body::ManagementRequest(req) => if wire_to_mgmt_type(req.request) is Some {
                ReceiveDisposition::Deliver
            } else {
                ReceiveDisposition::Discard
            },
        }
    }
}

/// The delivered message faithfully renders the envelope: same id and
/// addresses, and the body translated variant for variant. An unknown error
/// code decodes to `UnknownError`; a response's structured payload is not
/// carried through.
pub open spec fn incoming_matches(im: IncomingMessage, m: SwbusMessage) -> bool {
    &&& im.id == m.header.id
    &&& im.source == m.header.source
    &&& im.destination == m.header.destination
    &&& match m.body {
        Body::DataRequest(d) => im.body matches MessageBody::Request { payload }
            && payload == d.payload,
        Body::Response(rr) => im.body matches MessageBody::Response {
            request_id,
            error_code,
            error_message,
            response_body,
        } && request_id == rr.request_id && error_code == (match wire_to_code(rr.error_code) {
            Some(c) => c,
            None => SwbusErrorCode::UnknownError,
        }) && error_message == rr.error_message && response_body is None,
        Body::ManagementRequest(req) => im.body matches MessageBody::ManagementRequest {
            request,
            args,
        } && Some(request) == wire_to_mgmt_type(req.request) && args@.len()
            == req.arguments@.len() && (forall|i: int|
            0 <= i < req.arguments@.len() ==> (#[trigger] args@[i]).0 == req.arguments@[i].name
                && args@[i].1 == req.arguments@[i].value),
        _ => false,
    }
}

/// An auto-reply the facade sends on the actor's behalf: a fresh envelope
/// stamped with `id` and the default TTL, from `src`, back to the sender of
/// `m`, whose body is a response correlated with `m`'s id and carrying
/// `code`.
pub open spec fn auto_reply_matches(
    resp: SwbusMessage,
    src: PathView,
    m: SwbusMessage,
    code: SwbusErrorCode,
    id: int,
) -> bool {
    &&& resp.header.id == id
    &&& resp.header.ttl == SWBUS_MESSAGE_TTL_DEFAULT
    &&& path_eq(resp.header.source@, src)
    &&& path_eq(resp.header.destination@, m.header.source@)
    &&& resp.body is Response
    &&& resp.body->Response_0.request_id == m.header.id
    &&& resp.body->Response_0.error_code == code_wire_value(code)
}

/// The envelope `outgoing_message_to_swbus_message` builds for `out`, from a
/// client at `own` whose generator stood at `counter`: a fresh header from
/// the client's address to the outgoing destination, stamped with the next
/// id, and the body translated variant for variant.
pub open spec fn outgoing_translated(
    sm: SwbusMessage,
    own: ServicePath,
    counter: u64,
    out: OutgoingMessage,
) -> bool {
    &&& sm.header.id == counter + 1
    &&& sm.header.version == SWBUS_PROTO_VERSION
    &&& sm.header.flag == 0
    &&& sm.header.ttl == SWBUS_MESSAGE_TTL_DEFAULT
    &&& sm.header.source == own
    &&& sm.header.destination == out.destination
    &&& match out.body {
        MessageBody::Request { payload } => sm.body matches Body::DataRequest(d) && d.payload
            == payload,
        MessageBody::Response { request_id, error_code, error_message, response_body } => sm.body
            matches Body::Response(rr) && rr.request_id == request_id && rr.error_code
            == code_wire_value(error_code) && rr.error_message == error_message
            && match response_body {
            None => rr.response_body is None,
            Some(MessageResponseBody::ManagementQueryResult { payload }) => rr.response_body
                matches Some(ResponseBody::ManagementQueryResult(q)) && q.value == payload,
        },
        MessageBody::ManagementRequest { .. } => false,
    }
}

/// The client as it stands after sending one auto-reply: one more id drawn,
/// address and mode unchanged.
pub open spec fn client_after_reply(c: SimpleSwbusEdgeClient) -> SimpleSwbusEdgeClient {
    SimpleSwbusEdgeClient {
        source: c.source,
        id_generator: MessageIdGenerator { counter: (c.id_generator.counter + 1) as u64 },
        sink: c.sink,
    }
}

/// The complete behaviour of one `recv` call, as a chain of `steps`
/// auto-respond or discard rounds ending in a delivery or in `None`.
///
/// With no handler at the client's address, an empty mailbox, or the id
/// space spent, `recv` returns `None` and changes nothing. Otherwise it
/// takes the oldest mailbox message `m` and acts on its disposition: a
/// deliverable `m` is returned translated, with exactly `m` removed; an
/// auto-respond `m` is removed, its reply — the NoRoute bounce in sink mode,
/// the success acknowledgment for a ping or trace-route probe, stamped with
/// the client's next id — is submitted to the bus (one `send_outcome` step),
/// and `recv` continues; a discarded `m` is removed without any other
/// effect, and `recv` continues.
pub open spec fn recv_outcome(
    r: Option<IncomingMessage>,
    cpre: SimpleSwbusEdgeClient,
    cpost: SimpleSwbusEdgeClient,
    rpre: SwbusEdgeRuntime,
    rpost: SwbusEdgeRuntime,
    steps: nat,
) -> bool
    decreases steps,
{
    let hi = find_handler(rpre.handlers@, cpre.source@);
    if cpre.id_generator.counter >= u64::MAX - 1 || rpre.mux.id_generator.counter >= u64::MAX
        - 2 {
        r is None && cpost == cpre && rpost == rpre
    } else if hi < 0 || rpre.handlers@[hi].mailbox@.len() == 0 {
        r is None && cpost == cpre && rpost == rpre
    } else {
        let m = rpre.handlers@[hi].mailbox@[0];
        match receive_disposition(cpre.sink, cpre.source@, m) {
            ReceiveDisposition::Deliver => {
                &&& r is Some
                &&& incoming_matches(r->0, m)
                &&& popped_one(rpre, rpost, hi)
                &&& cpost == cpre
            },
            ReceiveDisposition::AutoRespond => {
                &&& steps > 0
                &&& exists|
                    rpop: SwbusEdgeRuntime,
                    rsent: SwbusEdgeRuntime,
                    resp: SwbusMessage,
                    sres: Result<(), SwbusError>,
                |
                    {
                        &&& popped_one(rpre, rpop, hi)
                        &&& if cpre.sink && !path_eq(m.header.destination@, cpre.source@) {
                            auto_reply_matches(
                                resp,
                                cpre.source@,
                                m,
                                SwbusErrorCode::NoRoute,
                                cpre.id_generator.counter + 1,
                            ) && resp.body->Response_0.error_message@ == "Route not found"@
                        } else {
                            auto_reply_matches(
                                resp,
                                m.header.destination@,
                                m,
                                SwbusErrorCode::Okay,
                                cpre.id_generator.counter + 1,
                            )
                        }
                        &&& #[trigger] send_outcome(sres, rpop, rsent, resp)
                        &&& recv_outcome(
                            r,
                            client_after_reply(cpre),
                            cpost,
                            rsent,
                            rpost,
                            (steps - 1) as nat,
                        )
                    }
            },
            ReceiveDisposition::Discard => {
                &&& steps > 0
                &&& exists|rpop: SwbusEdgeRuntime|
                    #[trigger] popped_one(rpre, rpop, hi) && recv_outcome(
                        r,
                        cpre,
                        cpost,
                        rpop,
                        rpost,
                        (steps - 1) as nat,
                    )
            },
        }
    }
}

/// Simplified interface to the edge runtime: it registers one handler at its
/// own address, stamps outgoing messages with fresh ids and the client's
/// address, and translates delivered envelopes for the actor.
pub struct SimpleSwbusEdgeClient {
    pub source: ServicePath,
    pub id_generator: MessageIdGenerator,
    pub sink: bool,
}

impl SimpleSwbusEdgeClient {
    /// Create and connect a client: registers a handler for `source` on the
    /// runtime, publicly or privately, and in sink mode bounces whatever is
    /// not addressed to it.
    pub fn new(rt: &mut SwbusEdgeRuntime, source: ServicePath, public: bool, sink: bool) -> (r:
        SimpleSwbusEdgeClient)
        requires
            runtime_wf(*old(rt)),
            find_handler(old(rt).handlers@, source@) == -1,
        ensures
            runtime_wf(*final(rt)),
            r.source == source,
            r.sink == sink,
            r.id_generator.counter == 0,
            final(rt).mux == old(rt).mux,
            final(rt).handlers@.len() == old(rt).handlers@.len() + 1,
            forall|i: int|
                0 <= i < old(rt).handlers@.len() ==> final(rt).handlers@[i] == old(
                    rt,
                ).handlers@[i],
            final(rt).handlers@.last().sp == source,
            final(rt).handlers@.last().is_public == public,
            final(rt).handlers@.last().mailbox@.len() == 0,
            final(rt).handlers@.last().capacity == SWBUS_RECV_QUEUE_SIZE,
    {
        let registered = if public {
            rt.add_handler(source.clone())
        } else {
            rt.add_private_handler(source.clone())
        };
        proof {
            assert(registered is Ok);
        }
        SimpleSwbusEdgeClient { source, id_generator: MessageIdGenerator::new(), sink }
    }

    /// Receive the next message for the actor. Infra messages are answered
    /// or dropped along the way without waking the actor, exactly as
    /// `recv_outcome` chains them. Returns `None` only when the mailbox is
    /// drained or the id space is spent: no more messages will be delivered.
    pub fn recv(&mut self, rt: &mut SwbusEdgeRuntime) -> (r: Option<IncomingMessage>)
        requires
            runtime_wf(*old(rt)),
        ensures
            runtime_wf(*final(rt)),
            final(self).source == old(self).source,
            final(self).sink == old(self).sink,
            final(rt).mux.routes == old(rt).mux.routes,
            final(rt).mux.my_routes == old(rt).mux.my_routes,
            final(rt).mux.my_sp == old(rt).mux.my_sp,
            crate::edge_runtime::handlers_shape_eq(old(rt).handlers@, final(rt).handlers@),
            exists|steps: nat|
                #[trigger] recv_outcome(
                    r,
                    *old(self),
                    *final(self),
                    *old(rt),
                    *final(rt),
                    steps,
                ),
    {
        let ghost mut taken: nat = 0;
        loop
            invariant
                runtime_wf(*rt),
                self.source == old(self).source,
                self.sink == old(self).sink,
                rt.mux.routes == old(rt).mux.routes,
                rt.mux.my_routes == old(rt).mux.my_routes,
                rt.mux.my_sp == old(rt).mux.my_sp,
                crate::edge_runtime::handlers_shape_eq(old(rt).handlers@, rt.handlers@),
                forall|
                    r2: Option<IncomingMessage>,
                    c2: SimpleSwbusEdgeClient,
                    rt2: SwbusEdgeRuntime,
                    k: nat,
                |
                    #[trigger] recv_outcome(r2, *self, c2, *rt, rt2, k) ==> recv_outcome(
                        r2,
                        *old(self),
                        c2,
                        *old(rt),
                        rt2,
                        (k + taken) as nat,
                    ),
            decreases
                u64::MAX - self.id_generator.counter,
                ({
                    let hi = find_handler(rt.handlers@, self.source@);
                    if 0 <= hi < rt.handlers@.len() {
                        rt.handlers@[hi].mailbox@.len() as int
                    } else {
                        0int
                    }
                }),
        {
            if self.id_generator.counter >= u64::MAX - 1 || rt.mux.id_generator.counter
                >= u64::MAX - 2 {
                proof {
                    assert(recv_outcome(
                        None::<IncomingMessage>,
                        *self,
                        *self,
                        *rt,
                        *rt,
                        0,
                    ));
                }
                return None;
            }
            let ghost head_self = *self;
            let ghost head_rt = *rt;
            proof {
                lemma_find_handler_bounds(rt.handlers@, self.source@, 0);
            }
            match rt.pop_handler_message(&self.source) {
                None => {
                    proof {
                        assert(*rt == head_rt);
                        assert(recv_outcome(
                            None::<IncomingMessage>,
                            head_self,
                            *self,
                            head_rt,
                            *rt,
                            0,
                        ));
                    }
                    return None;
                },
                Some(msg) => {
                    let ghost msg_snap = msg;
                    let ghost rpop_snap = *rt;
                    let ghost hi = find_handler(head_rt.handlers@, head_self.source@);
                    proof {
                        assert(popped_one(head_rt, rpop_snap, hi));
                    }
                    match self.handle_received_message(msg) {
                        HandleReceivedMessage::PassToActor(incoming) => {
                            proof {
                                assert(*self == head_self);
                                assert(recv_outcome(
                                    Some(incoming),
                                    head_self,
                                    *self,
                                    head_rt,
                                    *rt,
                                    0,
                                ));
                            }
                            return Some(incoming);
                        },
                        HandleReceivedMessage::Respond(response) => {
                            let ghost resp_snap = response;
                            let ghost cmid = *self;
                            let send_result = rt.send(response);
                            proof {
                                let sres_snap = send_result;
                                let rsent_snap = *rt;
                                assert(cmid == client_after_reply(head_self));
                                assert(send_outcome(sres_snap, rpop_snap, rsent_snap, resp_snap));
                                assert forall|
                                    r2: Option<IncomingMessage>,
                                    c2: SimpleSwbusEdgeClient,
                                    rt2: SwbusEdgeRuntime,
                                    k: nat,
                                |
                                    #[trigger] recv_outcome(r2, *self, c2, *rt, rt2, k) implies recv_outcome(
                                    r2,
                                    head_self,
                                    c2,
                                    head_rt,
                                    rt2,
                                    (k + 1) as nat,
                                ) by {
                                    assert(popped_one(head_rt, rpop_snap, hi));
                                    assert(send_outcome(
                                        sres_snap,
                                        rpop_snap,
                                        rsent_snap,
                                        resp_snap,
                                    ));
                                    assert(recv_outcome(
                                        r2,
                                        client_after_reply(head_self),
                                        c2,
                                        rsent_snap,
                                        rt2,
                                        k,
                                    ));
                                }
                                taken = (taken + 1) as nat;
                                lemma_find_handler_shape(
                                    head_rt.handlers@,
                                    rt.handlers@,
                                    self.source@,
                                    0,
                                );
                            }
                        },
                        HandleReceivedMessage::Ignore => {
                            proof {
                                assert(*self == head_self);
                                assert forall|
                                    r2: Option<IncomingMessage>,
                                    c2: SimpleSwbusEdgeClient,
                                    rt2: SwbusEdgeRuntime,
                                    k: nat,
                                |
                                    #[trigger] recv_outcome(r2, *self, c2, *rt, rt2, k) implies recv_outcome(
                                    r2,
                                    head_self,
                                    c2,
                                    head_rt,
                                    rt2,
                                    (k + 1) as nat,
                                ) by {
                                    assert(popped_one(head_rt, rpop_snap, hi));
                                    assert(recv_outcome(r2, head_self, c2, rpop_snap, rt2, k));
                                }
                                taken = (taken + 1) as nat;
                                lemma_find_handler_shape(
                                    head_rt.handlers@,
                                    rt.handlers@,
                                    self.source@,
                                    0,
                                );
                            }
                        },
                    }
                },
            }
        }
    }

    /// Dispose of one delivered envelope: translate it for the actor, build
    /// the auto-reply, or drop it, per `receive_disposition`.
    #[verifier::loop_isolation(false)]
    fn handle_received_message(&mut self, msg: SwbusMessage) -> (r: HandleReceivedMessage)
        requires
            old(self).id_generator.counter < u64::MAX,
        ensures
            final(self).source == old(self).source,
            final(self).sink == old(self).sink,
            ({
                let d = receive_disposition(old(self).sink, old(self).source@, msg);
                match d {
                    ReceiveDisposition::Deliver => r matches HandleReceivedMessage::PassToActor(im)
                        && incoming_matches(im, msg) && final(self).id_generator == old(
                        self,
                    ).id_generator,
                    ReceiveDisposition::AutoRespond => r matches HandleReceivedMessage::Respond(
                        resp,
                    ) && final(self).id_generator.counter == old(self).id_generator.counter + 1
                        && if old(self).sink && !path_eq(msg.header.destination@, old(self).source@) {
                        auto_reply_matches(
                            resp,
                            old(self).source@,
                            msg,
                            SwbusErrorCode::NoRoute,
                            old(self).id_generator.counter + 1,
                        ) && resp.body->Response_0.error_message@ == "Route not found"@
                    } else {
                        auto_reply_matches(
                            resp,
                            msg.header.destination@,
                            msg,
                            SwbusErrorCode::Okay,
                            old(self).id_generator.counter + 1,
                        )
                    },
                    ReceiveDisposition::Discard => r is Ignore && final(self).id_generator == old(
                        self,
                    ).id_generator,
                }
            }),
    {
        let header = msg.header;
        let id = header.id;
        let source = header.source;
        let destination = header.destination;
        let body = msg.body;

        if self.sink && !destination.eq_path(&self.source) {
            let new_id = self.id_generator.generate();
            return HandleReceivedMessage::Respond(
                SwbusMessage::new(
                    SwbusMessageHeader::new(self.source.clone(), source, new_id),
                    Body::Response(
                        RequestResponse::infra_error(id, SwbusErrorCode::NoRoute, "Route not found"),
                    ),
                ),
            );
        }
        match body {
            Body::DataRequest(DataRequest { payload }) => HandleReceivedMessage::PassToActor(
                IncomingMessage {
                    id,
                    source,
                    destination,
                    body: MessageBody::Request { payload },
                },
            ),
            Body::Response(RequestResponse { request_id, error_code, error_message, .. }) => HandleReceivedMessage::PassToActor(
                IncomingMessage {
                    id,
                    source,
                    destination,
                    body: MessageBody::Response {
                        request_id,
                        error_code: match SwbusErrorCode::from_wire(error_code) {
                            Some(code) => code,
                            None => SwbusErrorCode::UnknownError,
                        },
                        error_message,
                        response_body: None,
                    },
                },
            ),
            Body::PingRequest(_) => HandleReceivedMessage::Respond(
                SwbusMessage::new(
                    SwbusMessageHeader::new(destination, source, self.id_generator.generate()),
                    Body::Response(RequestResponse::ok(id)),
                ),
            ),
            Body::TraceRouteRequest(_) => HandleReceivedMessage::Respond(
                SwbusMessage::new(
                    SwbusMessageHeader::new(destination, source, self.id_generator.generate()),
                    Body::Response(RequestResponse::ok(id)),
                ),
            ),
            Body::ManagementRequest(ManagementRequest { request, arguments }) => {
                match ManagementRequestType::from_wire(request) {
                    None => HandleReceivedMessage::Ignore,
                    Some(request_type) => {
                        let mut args: Vec<(String, String)> = Vec::new();
                        let count = arguments.len();
                        let mut i: usize = 0;
                        while i < count
                            invariant
                                0 <= i <= count,
                                count == arguments@.len(),
                                args@.len() == i,
                                forall|j: int|
                                    0 <= j < i ==> (#[trigger] args@[j]).0 == arguments@[j].name
                                        && args@[j].1 == arguments@[j].value,
                            decreases count - i,
                        {
                            args.push(
                                (arguments[i].name.clone(), arguments[i].value.clone()),
                            );
                            i = i + 1;
                        }
                        HandleReceivedMessage::PassToActor(
                            IncomingMessage {
                                id,
                                source,
                                destination,
                                body: MessageBody::ManagementRequest {
                                    request: request_type,
                                    args,
                                },
                            },
                        )
                    },
                }
            },
        }
    }

    /// Send a message: stamp it with a fresh id and this client's address,
    /// then submit it to the bus. Returns the id for correlation.
    pub fn send(&mut self, rt: &mut SwbusEdgeRuntime, msg: OutgoingMessage) -> (r: Result<
        MessageId,
        SwbusError,
    >)
        requires
            runtime_wf(*old(rt)),
            old(self).id_generator.counter < u64::MAX,
            old(rt).mux.id_generator.counter < u64::MAX - 1,
            !(msg.body is ManagementRequest),
        ensures
            runtime_wf(*final(rt)),
            final(self).source == old(self).source,
            final(self).sink == old(self).sink,
            final(self).id_generator.counter == old(self).id_generator.counter + 1,
            r is Ok ==> r->Ok_0 == old(self).id_generator.counter + 1,
            exists|sm: SwbusMessage|
                #[trigger] outgoing_translated(
                    sm,
                    old(self).source,
                    old(self).id_generator.counter,
                    msg,
                ) && send_outcome(
                    match r {
                        Result::Ok(_) => Result::<(), SwbusError>::Ok(()),
                        Result::Err(e) => Result::<(), SwbusError>::Err(e),
                    },
                    *old(rt),
                    *final(rt),
                    sm,
                ),
    {
        let (id, sm) = self.outgoing_message_to_swbus_message(msg);
        match self.send_raw(rt, sm) {
            Ok(_) => Ok(id),
            Err(e) => Err(e),
        }
    }

    /// Re-submit a prebuilt envelope as-is, preserving its id. Meant for
    /// resending a message built by
    /// `outgoing_message_to_swbus_message`; ids stamped elsewhere may
    /// collide with this client's.
    pub fn send_raw(&self, rt: &mut SwbusEdgeRuntime, msg: SwbusMessage) -> (r: Result<
        (),
        SwbusError,
    >)
        requires
            runtime_wf(*old(rt)),
            old(rt).mux.id_generator.counter < u64::MAX - 1,
            forwards_remotely(*old(rt), msg) ==> msg.header.ttl >= 1,
        ensures
            runtime_wf(*final(rt)),
            send_outcome(r, *old(rt), *final(rt), msg),
    {
        rt.send(msg)
    }

    /// Compile an outgoing message into a bus envelope for `send_raw`:
    /// stamps the next fresh id and this client's source address.
    pub fn outgoing_message_to_swbus_message(&mut self, msg: OutgoingMessage) -> (r: (
        MessageId,
        SwbusMessage,
    ))
        requires
            old(self).id_generator.counter < u64::MAX,
            !(msg.body is ManagementRequest),
        ensures
            final(self).source == old(self).source,
            final(self).sink == old(self).sink,
            final(self).id_generator.counter == old(self).id_generator.counter + 1,
            r.0 == old(self).id_generator.counter + 1,
            outgoing_translated(r.1, old(self).source, old(self).id_generator.counter, msg),
    {
        let id = self.id_generator.generate();
        let body = match msg.body {
            MessageBody::Request { payload } => Body::DataRequest(DataRequest { payload }),
            MessageBody::Response { request_id, error_code, error_message, response_body } => {
                let response_body = match response_body {
                    None => None,
                    Some(MessageResponseBody::ManagementQueryResult { payload }) => Some(
                        ResponseBody::ManagementQueryResult(
                            ManagementQueryResult { value: payload },
                        ),
                    ),
                };
                Body::Response(
                    RequestResponse {
                        request_id,
                        error_code: error_code.to_wire(),
                        error_message,
                        response_body,
                    },
                )
            },
            // Ruled out by the precondition: management requests have no
            // outgoing envelope form.
            MessageBody::ManagementRequest { .. } => Body::PingRequest(
                crate::message::PingRequest {  },
            ),
        };
        let sm = SwbusMessage {
            header: SwbusMessageHeader::new(self.source.clone(), msg.destination, id),
            body,
        };
        (id, sm)
    }

    /// This client's own address.
    pub fn get_service_path(&self) -> (r: &ServicePath)
        ensures
            r == self.source,
    {
        &self.source
    }
}

} // verus!
