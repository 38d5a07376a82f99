//! The per-process container: the multiplexer, the registry of handler
//! mailboxes, and the typed runtime environment. Messages submitted here are
//! dispatched to a handler mailbox on an exact address match, or resolved
//! through the route table; a synthesized response is routed exactly once
//! more, and a response to a response is dropped.

use crate::message::{is_response_to, PathViewChoice, SwbusMessage};
use crate::multiplexer::{best_match, mux_wf, SwbusMultiplexer};
use crate::nexthop::{local_outcome_holds, nexthop_wf, remote_outcome_holds};
use crate::result::{SwbusError, SwbusErrorCode};
use crate::service_path::{path_eq, PathView, ServicePath};
use vstd::prelude::*;
use vstd::string::StringExecFns;

verus! {

/// Default capacity of a handler mailbox and of a connection send queue.
pub const SWBUS_RECV_QUEUE_SIZE: usize = 1024;

/// The typed per-process environment: the DPU slot this process serves and
/// the NPU's addresses, IPv4 and IPv6 in numeric form. Written once at
/// startup, read-only thereafter.
pub struct RuntimeData {
    pub dpu_id: u32,
    pub npu_ipv4: Option<u32>,
    pub npu_ipv6: Option<u128>,
}

impl RuntimeData {
    /// Bundle the per-process environment.
    pub fn new(dpu_id: u32, npu_ipv4: Option<u32>, npu_ipv6: Option<u128>) -> (r: RuntimeData)
        ensures
            r.dpu_id == dpu_id,
            r.npu_ipv4 == npu_ipv4,
            r.npu_ipv6 == npu_ipv6,
    {
        RuntimeData { dpu_id, npu_ipv4, npu_ipv6 }
    }

    /// The DPU slot this process serves.
    pub fn dpu_id(&self) -> (r: u32)
        ensures
            r == self.dpu_id,
    {
        self.dpu_id
    }

    /// The NPU's IPv4 address in numeric form, if configured.
    pub fn npu_ipv4(&self) -> (r: Option<u32>)
        ensures
            r == self.npu_ipv4,
    {
        self.npu_ipv4
    }

    /// The NPU's IPv6 address in numeric form, if configured.
    pub fn npu_ipv6(&self) -> (r: Option<u128>)
        ensures
            r == self.npu_ipv6,
    {
        self.npu_ipv6
    }
}

/// One registered handler: its exact address, whether remote senders may see
/// it, and its bounded mailbox.
pub struct HandlerEntry {
    pub sp: ServicePath,
    pub is_public: bool,
    pub mailbox: Vec<SwbusMessage>,
    pub capacity: usize,
}

/// The index of the first handler registered at exactly `sp`, searching from
/// `from`; `-1` when none is.
pub open spec fn find_handler_from(handlers: Seq<HandlerEntry>, sp: PathView, from: int) -> int
    decreases handlers.len() - from when 0 <= from
{
    if from >= handlers.len() {
        -1
    } else if path_eq(handlers[from].sp@, sp) {
        from
    } else {
        find_handler_from(handlers, sp, from + 1)
    }
}

/// The index of the handler registered at exactly `sp`, or `-1`.
pub open spec fn find_handler(handlers: Seq<HandlerEntry>, sp: PathView) -> int {
    find_handler_from(handlers, sp, 0)
}

/// `find_handler_from` returns the position characterised by "no hit before,
/// a hit at, or no hit at all".
proof fn lemma_find_handler_characterisation(
    handlers: Seq<HandlerEntry>,
    sp: PathView,
    from: int,
    k: int,
)
    requires
        0 <= from <= k <= handlers.len(),
        forall|j: int| from <= j < k ==> !path_eq(handlers[j].sp@, sp),
        k < handlers.len() ==> path_eq(handlers[k].sp@, sp),
    ensures
        k < handlers.len() ==> find_handler_from(handlers, sp, from) == k,
        k == handlers.len() ==> find_handler_from(handlers, sp, from) == -1,
    decreases k - from,
{
    if from < k {
        lemma_find_handler_characterisation(handlers, sp, from + 1, k);
    }
}

/// At most one handler per address.
pub open spec fn handlers_wf(handlers: Seq<HandlerEntry>) -> bool {
    forall|i: int, j: int|
        0 <= i < j < handlers.len() ==> !path_eq(handlers[i].sp@, handlers[j].sp@)
}

/// The runtime's invariant: a well-formed multiplexer and a duplicate-free
/// handler registry.
pub open spec fn runtime_wf(rt: SwbusEdgeRuntime) -> bool {
    &&& mux_wf(rt.mux)
    &&& handlers_wf(rt.handlers@)
}

/// The handler registry keeps its addresses, visibility and capacities; only
/// mailbox contents may differ.
pub open spec fn handlers_shape_eq(a: Seq<HandlerEntry>, b: Seq<HandlerEntry>) -> bool {
    &&& a.len() == b.len()
    &&& forall|i: int|
        0 <= i < a.len() ==> (#[trigger] a[i]).sp == b[i].sp && a[i].is_public == b[i].is_public
            && a[i].capacity == b[i].capacity
}

/// The route table, announced routes and daemon address are unchanged.
pub open spec fn same_routing_state(a: SwbusEdgeRuntime, b: SwbusEdgeRuntime) -> bool {
    &&& a.mux.routes == b.mux.routes
    &&& a.mux.my_routes == b.mux.my_routes
    &&& a.mux.my_sp == b.mux.my_sp
    &&& a.base_sp == b.base_sp
    &&& a.env == b.env
    &&& a.endpoint == b.endpoint
}

/// A found handler index is in range and names a handler at that address.
pub proof fn lemma_find_handler_bounds(handlers: Seq<HandlerEntry>, sp: PathView, from: int)
    requires
        0 <= from <= handlers.len(),
    ensures
        find_handler_from(handlers, sp, from) == -1 || from <= find_handler_from(
            handlers,
            sp,
            from,
        ) < handlers.len(),
        find_handler_from(handlers, sp, from) >= 0 ==> path_eq(
            handlers[find_handler_from(handlers, sp, from)].sp@,
            sp,
        ),
    decreases handlers.len() - from,
{
    if from < handlers.len() && !path_eq(handlers[from].sp@, sp) {
        lemma_find_handler_bounds(handlers, sp, from + 1);
    }
}

/// Registries of the same shape locate every address at the same index.
pub proof fn lemma_find_handler_shape(
    a: Seq<HandlerEntry>,
    b: Seq<HandlerEntry>,
    sp: PathView,
    from: int,
)
    requires
        0 <= from,
        handlers_shape_eq(a, b),
    ensures
        find_handler_from(a, sp, from) == find_handler_from(b, sp, from),
    decreases a.len() - from,
{
    if from < a.len() {
        assert(a[from].sp == b[from].sp);
        lemma_find_handler_shape(a, b, sp, from + 1);
    }
}

/// The runtime after the oldest message of handler `hi`'s mailbox was taken
/// out: that mailbox lost its head, everything else is as before.
pub open spec fn popped_one(pre: SwbusEdgeRuntime, post: SwbusEdgeRuntime, hi: int) -> bool {
    &&& 0 <= hi < pre.handlers@.len()
    &&& pre.handlers@[hi].mailbox@.len() > 0
    &&& same_routing_state(post, pre)
    &&& post.mux == pre.mux
    &&& post.handlers@.len() == pre.handlers@.len()
    &&& post.handlers@[hi].sp == pre.handlers@[hi].sp
    &&& post.handlers@[hi].is_public == pre.handlers@[hi].is_public
    &&& post.handlers@[hi].capacity == pre.handlers@[hi].capacity
    &&& post.handlers@[hi].mailbox@ == pre.handlers@[hi].mailbox@.skip(1)
    &&& forall|i: int|
        0 <= i < pre.handlers@.len() && i != hi ==> post.handlers@[i] == pre.handlers@[i]
}

/// The message would be forwarded on a connection: no handler matches its
/// destination exactly and resolution picks a remote next hop. Only then is
/// a TTL unit consumed, so only then must one be left.
pub open spec fn forwards_remotely(rt: SwbusEdgeRuntime, msg: SwbusMessage) -> bool {
    let hi = find_handler(rt.handlers@, msg.header.destination@);
    let best = best_match(rt.mux.routes@, msg.header.destination@);
    hi < 0 && best >= 0 && rt.mux.routes@[best].nexthop.nh_type is Remote
}

/// What one dispatch step does with a message: an exact handler match lands
/// it in that mailbox (a saturated mailbox draws a ResourceExhausted reply
/// instead); anything else goes through route resolution to the resulting
/// next hop.
pub open spec fn dispatch_outcome(
    r: Result<Option<SwbusMessage>, SwbusError>,
    pre: SwbusEdgeRuntime,
    post: SwbusEdgeRuntime,
    msg: SwbusMessage,
) -> bool {
    let hi = find_handler(pre.handlers@, msg.header.destination@);
    &&& same_routing_state(post, pre)
    &&& handlers_shape_eq(pre.handlers@, post.handlers@)
    &&& if hi >= 0 {
        let h = pre.handlers@[hi];
        &&& post.mux.queues == pre.mux.queues
        &&& if h.mailbox@.len() < h.capacity {
            &&& r is Ok
            &&& r->Ok_0 is None
            &&& post.handlers@[hi].mailbox@ == h.mailbox@.push(msg)
            &&& forall|i: int|
                0 <= i < pre.handlers@.len() && i != hi ==> post.handlers@[i]
                    == pre.handlers@[i]
            &&& post.mux == pre.mux
        } else {
            &&& r is Ok
            &&& r->Ok_0 is Some
            &&& is_response_to(
                r->Ok_0->0,
                msg.header,
                PathViewChoice::RequestDestination,
                SwbusErrorCode::ResourceExhausted,
                pre.mux.id_generator.counter + 1,
            )
            &&& post.handlers == pre.handlers
            &&& post.mux.id_generator.counter == pre.mux.id_generator.counter + 1
        }
    } else {
        let best = best_match(pre.mux.routes@, msg.header.destination@);
        &&& post.handlers == pre.handlers
        &&& if best == -1 || pre.mux.routes@[best].nexthop.nh_type is Local {
            post.mux.queues == pre.mux.queues && local_outcome_holds(r, pre.mux, post.mux, msg)
        } else {
            remote_outcome_holds(
                r,
                pre.mux,
                post.mux,
                msg,
                pre.mux.routes@[best].nexthop.conn_proxy->0.queue_index as int,
            )
        }
    }
}

/// What `send` does: one dispatch step for the message; when that step
/// synthesizes a response, one more dispatch step for the response, whose
/// own response, if any, is dropped — responses never beget responses.
pub open spec fn send_outcome(
    r: Result<(), SwbusError>,
    pre: SwbusEdgeRuntime,
    post: SwbusEdgeRuntime,
    msg: SwbusMessage,
) -> bool {
    exists|mid: SwbusEdgeRuntime, r1: Result<Option<SwbusMessage>, SwbusError>|
        #[trigger] dispatch_outcome(r1, pre, mid, msg) && match r1 {
            Result::Err(e) => post == mid && r == Result::<(), SwbusError>::Err(e),
            Result::Ok(Option::None) => post == mid && r is Ok,
            Result::Ok(Option::Some(resp)) => exists|
                r2: Result<Option<SwbusMessage>, SwbusError>,
            |
                #[trigger] dispatch_outcome(r2, mid, post, resp) && match r2 {
                    Result::Err(e2) => r == Result::<(), SwbusError>::Err(e2),
                    _ => r is Ok,
                },
        }
}

/// The per-process container of the multiplexer, the handler registry and
/// the runtime environment.
pub struct SwbusEdgeRuntime {
    /// The routing fabric.
    pub mux: SwbusMultiplexer,
    /// The registered handlers, in registration order.
    pub handlers: Vec<HandlerEntry>,
    /// The typed runtime environment, set once at startup.
    pub env: Option<RuntimeData>,
    /// The daemon endpoint this process attaches to, in textual form.
    pub endpoint: String,
    /// The address stamped on this process's handlers, before any service
    /// suffix.
    pub base_sp: ServicePath,
}

impl SwbusEdgeRuntime {
    /// A fresh runtime attached to nothing: no routes, no handlers, no
    /// environment.
    pub fn new(endpoint: String, base_sp: ServicePath) -> (r: SwbusEdgeRuntime)
        ensures
            r.mux.routes@.len() == 0,
            r.mux.queues@.len() == 0,
            r.mux.id_generator.counter == 0,
            r.handlers@.len() == 0,
            r.env is None,
            r.endpoint == endpoint,
            r.base_sp == base_sp,
            runtime_wf(r),
    {
        SwbusEdgeRuntime {
            mux: SwbusMultiplexer::new(),
            handlers: Vec::new(),
            env: None,
            endpoint,
            base_sp,
        }
    }

    /// Install the typed runtime environment.
    pub fn set_runtime_env(&mut self, env: RuntimeData)
        ensures
            final(self).env == Some(env),
            final(self).mux == old(self).mux,
            final(self).handlers == old(self).handlers,
            final(self).endpoint == old(self).endpoint,
            final(self).base_sp == old(self).base_sp,
    {
        self.env = Some(env);
    }

    /// The typed runtime environment, if set.
    pub fn get_runtime_env(&self) -> (r: &Option<RuntimeData>)
        ensures
            r == self.env,
    {
        &self.env
    }

    /// The address this process's handlers derive from.
    pub fn get_base_sp(&self) -> (r: ServicePath)
        ensures
            r == self.base_sp,
    {
        self.base_sp.clone()
    }

    /// Register a handler mailbox at an exact address. Refused when the
    /// address already has one.
    #[verifier::loop_isolation(false)]
    fn add_handler_entry(&mut self, sp: ServicePath, is_public: bool) -> (r: Result<
        (),
        SwbusError,
    >)
        requires
            runtime_wf(*old(self)),
        ensures
            runtime_wf(*final(self)),
            same_routing_state(*final(self), *old(self)),
            final(self).mux == old(self).mux,
            ({
                let hi = find_handler(old(self).handlers@, sp@);
                if hi == -1 {
                    &&& r is Ok
                    &&& final(self).handlers@.len() == old(self).handlers@.len() + 1
                    &&& (forall|i: int|
                        0 <= i < old(self).handlers@.len() ==> final(self).handlers@[i] == old(
                            self,
                        ).handlers@[i])
                    &&& final(self).handlers@.last().sp == sp
                    &&& final(self).handlers@.last().is_public == is_public
                    &&& final(self).handlers@.last().mailbox@.len() == 0
                    &&& final(self).handlers@.last().capacity == SWBUS_RECV_QUEUE_SIZE
                } else {
                    &&& r is Err
                    &&& r->Err_0 is Input
                    &&& crate::result::error_code_of(r->Err_0) == SwbusErrorCode::InvalidArgs
                    &&& final(self).handlers == old(self).handlers
                }
            }),
    {
        let n = self.handlers.len();
        let mut i: usize = 0;
        while i < n
            invariant
                0 <= i <= n,
                n == self.handlers@.len(),
                *self == *old(self),
                forall|j: int| 0 <= j < i ==> !path_eq(self.handlers@[j].sp@, sp@),
            decreases n - i,
        {
            if self.handlers[i].sp.eq_path(&sp) {
                proof {
                    lemma_find_handler_characterisation(self.handlers@, sp@, 0, i as int);
                }
                return Err(SwbusError::input(
                    SwbusErrorCode::InvalidArgs,
                    String::from_str("handler already registered"),
                ));
            }
            i = i + 1;
        }
        proof {
            lemma_find_handler_characterisation(self.handlers@, sp@, 0, n as int);
        }
        self.handlers.push(
            HandlerEntry {
                sp,
                is_public,
                mailbox: Vec::new(),
                capacity: SWBUS_RECV_QUEUE_SIZE,
            },
        );
        Ok(())
    }

    /// Register a public handler: remote senders may address it, and it
    /// shows in route announcements.
    pub fn add_handler(&mut self, sp: ServicePath) -> (r: Result<(), SwbusError>)
        requires
            runtime_wf(*old(self)),
        ensures
            runtime_wf(*final(self)),
            same_routing_state(*final(self), *old(self)),
            final(self).mux == old(self).mux,
            ({
                let hi = find_handler(old(self).handlers@, sp@);
                if hi == -1 {
                    &&& r is Ok
                    &&& final(self).handlers@.len() == old(self).handlers@.len() + 1
                    &&& (forall|i: int|
                        0 <= i < old(self).handlers@.len() ==> final(self).handlers@[i] == old(
                            self,
                        ).handlers@[i])
                    &&& final(self).handlers@.last().sp == sp
                    &&& final(self).handlers@.last().is_public == true
                    &&& final(self).handlers@.last().mailbox@.len() == 0
                    &&& final(self).handlers@.last().capacity == SWBUS_RECV_QUEUE_SIZE
                } else {
                    &&& r is Err
                    &&& final(self).handlers == old(self).handlers
                }
            }),
    {
        self.add_handler_entry(sp, true)
    }

    /// Register a private handler: addressable only within this process,
    /// invisible to route exports.
    pub fn add_private_handler(&mut self, sp: ServicePath) -> (r: Result<(), SwbusError>)
        requires
            runtime_wf(*old(self)),
        ensures
            runtime_wf(*final(self)),
            same_routing_state(*final(self), *old(self)),
            final(self).mux == old(self).mux,
            ({
                let hi = find_handler(old(self).handlers@, sp@);
                if hi == -1 {
                    &&& r is Ok
                    &&& final(self).handlers@.len() == old(self).handlers@.len() + 1
                    &&& (forall|i: int|
                        0 <= i < old(self).handlers@.len() ==> final(self).handlers@[i] == old(
                            self,
                        ).handlers@[i])
                    &&& final(self).handlers@.last().sp == sp
                    &&& final(self).handlers@.last().is_public == false
                    &&& final(self).handlers@.last().mailbox@.len() == 0
                    &&& final(self).handlers@.last().capacity == SWBUS_RECV_QUEUE_SIZE
                } else {
                    &&& r is Err
                    &&& final(self).handlers == old(self).handlers
                }
            }),
    {
        self.add_handler_entry(sp, false)
    }

    /// One dispatch step: land the message in the mailbox of the handler
    /// registered at exactly its destination, or resolve the destination
    /// through the route table and hand the message to the next hop. A
    /// returned response is the caller's to route.
    #[verifier::loop_isolation(false)]
    pub fn dispatch(&mut self, msg: SwbusMessage) -> (r: Result<Option<SwbusMessage>, SwbusError>)
        requires
            runtime_wf(*old(self)),
            old(self).mux.id_generator.counter < u64::MAX,
            forwards_remotely(*old(self), msg) ==> msg.header.ttl >= 1,
        ensures
            runtime_wf(*final(self)),
            final(self).mux.id_generator.counter <= old(self).mux.id_generator.counter + 1,
            dispatch_outcome(r, *old(self), *final(self), msg),
    {
        let n = self.handlers.len();
        let mut i: usize = 0;
        while i < n
            invariant
                0 <= i <= n,
                n == self.handlers@.len(),
                *self == *old(self),
                forall|j: int|
                    0 <= j < i ==> !path_eq(self.handlers@[j].sp@, msg.header.destination@),
            decreases n - i,
        {
            if self.handlers[i].sp.eq_path(&msg.header.destination) {
                proof {
                    lemma_find_handler_characterisation(
                        self.handlers@,
                        msg.header.destination@,
                        0,
                        i as int,
                    );
                }
                if self.handlers[i].mailbox.len() < self.handlers[i].capacity {
                    let ghost pre_handlers = self.handlers@;
                    let handler = &mut self.handlers[i];
                    handler.mailbox.push(msg);
                    proof {
                        assert(handlers_shape_eq(pre_handlers, self.handlers@));
                    }
                    return Ok(None);
                } else {
                    let id = self.mux.generate_message_id();
                    let response = SwbusMessage::new_response(
                        &msg,
                        None,
                        SwbusErrorCode::ResourceExhausted,
                        "handler mailbox full",
                        id,
                        None,
                    );
                    return Ok(Some(response));
                }
            }
            i = i + 1;
        }
        proof {
            lemma_find_handler_characterisation(self.handlers@, msg.header.destination@, 0, n as int);
        }
        let (nexthop, _) = self.mux.route(&msg.header.destination);
        proof {
            crate::multiplexer::lemma_best_match_bounds(
                self.mux.routes@,
                msg.header.destination@,
                self.mux.routes@.len() as int,
            );
        }
        nexthop.queue_message(&mut self.mux, msg)
    }

    /// Submit a message to the bus: resolve and deliver it, route the one
    /// response that resolution may synthesize, and drop any response to
    /// that response. `Err` reports an infrastructure failure (saturated
    /// send queue).
    pub fn send(&mut self, msg: SwbusMessage) -> (r: Result<(), SwbusError>)
        requires
            runtime_wf(*old(self)),
            old(self).mux.id_generator.counter < u64::MAX - 1,
            forwards_remotely(*old(self), msg) ==> msg.header.ttl >= 1,
        ensures
            runtime_wf(*final(self)),
            send_outcome(r, *old(self), *final(self), msg),
    {
        let first = self.dispatch(msg);
        let ghost mid = *self;
        match first {
            Err(e) => {
                proof {
                    assert(dispatch_outcome(Result::Err(e), *old(self), mid, msg));
                }
                Err(e)
            },
            Ok(None) => {
                proof {
                    assert(dispatch_outcome(
                        Result::<Option<SwbusMessage>, SwbusError>::Ok(None),
                        *old(self),
                        mid,
                        msg,
                    ));
                }
                Ok(())
            },
            Ok(Some(response)) => {
                let ghost resp_snap = response;
                let second = self.dispatch(response);
                proof {
                    assert(dispatch_outcome(
                        Result::<Option<SwbusMessage>, SwbusError>::Ok(Some(resp_snap)),
                        *old(self),
                        mid,
                        msg,
                    ));
                    assert(dispatch_outcome(second, mid, *self, resp_snap));
                }
                match second {
                    Err(e2) => Err(e2),
                    Ok(_) => Ok(()),
                }
            },
        }
    }

    /// Take the oldest message out of the mailbox registered at `sp`;
    /// `None` when there is no such handler or its mailbox is empty.
    #[verifier::loop_isolation(false)]
    pub fn pop_handler_message(&mut self, sp: &ServicePath) -> (r: Option<SwbusMessage>)
        requires
            runtime_wf(*old(self)),
        ensures
            runtime_wf(*final(self)),
            same_routing_state(*final(self), *old(self)),
            final(self).mux == old(self).mux,
            handlers_shape_eq(old(self).handlers@, final(self).handlers@),
            ({
                let hi = find_handler(old(self).handlers@, sp@);
                if hi >= 0 && old(self).handlers@[hi].mailbox@.len() > 0 {
                    &&& r == Some(old(self).handlers@[hi].mailbox@[0])
                    &&& final(self).handlers@[hi].mailbox@ == old(
                        self,
                    ).handlers@[hi].mailbox@.skip(1)
                    &&& forall|i: int|
                        0 <= i < old(self).handlers@.len() && i != hi ==> final(self).handlers@[i]
                            == old(self).handlers@[i]
                } else {
                    r is None && final(self).handlers == old(self).handlers
                }
            }),
    {
        let n = self.handlers.len();
        let mut i: usize = 0;
        while i < n
            invariant
                0 <= i <= n,
                n == self.handlers@.len(),
                *self == *old(self),
                forall|j: int| 0 <= j < i ==> !path_eq(self.handlers@[j].sp@, sp@),
            decreases n - i,
        {
            if self.handlers[i].sp.eq_path(sp) {
                proof {
                    lemma_find_handler_characterisation(self.handlers@, sp@, 0, i as int);
                }
                if self.handlers[i].mailbox.len() > 0 {
                    let ghost pre_handlers = self.handlers@;
                    let handler = &mut self.handlers[i];
                    let msg = handler.mailbox.remove(0);
                    proof {
                        assert(handlers_shape_eq(pre_handlers, self.handlers@));
                        assert(final(handler).mailbox@ =~= pre_handlers[i as int].mailbox@.skip(
                            1,
                        ));
                    }
                    return Some(msg);
                } else {
                    return None;
                }
            }
            i = i + 1;
        }
        proof {
            lemma_find_handler_characterisation(self.handlers@, sp@, 0, n as int);
        }
        None
    }
}

/// The DPU slot id out of a runtime whose environment has been set.
pub fn get_slot_id(swbus_edge: &SwbusEdgeRuntime) -> (r: u32)
    requires
        swbus_edge.env is Some,
    ensures
        r == swbus_edge.env->0.dpu_id,
{
    match &swbus_edge.env {
        Some(env) => env.dpu_id(),
        None => 0,
    }
}

/// The NPU's IPv4 address out of a runtime whose environment has been set.
pub fn get_npu_ipv4(swbus_edge: &SwbusEdgeRuntime) -> (r: Option<u32>)
    requires
        swbus_edge.env is Some,
    ensures
        r == swbus_edge.env->0.npu_ipv4,
{
    match &swbus_edge.env {
        Some(env) => env.npu_ipv4(),
        None => None,
    }
}

/// The NPU's IPv6 address out of a runtime whose environment has been set.
pub fn get_npu_ipv6(swbus_edge: &SwbusEdgeRuntime) -> (r: Option<u128>)
    requires
        swbus_edge.env is Some,
    ensures
        r == swbus_edge.env->0.npu_ipv6,
{
    match &swbus_edge.env {
        Some(env) => env.npu_ipv6(),
        None => None,
    }
}

/// The address of the key-value bridge for one database table: the runtime's
/// base address with the bridge resource type and the `db|table` resource
/// id.
pub fn common_bridge_sp(runtime: &SwbusEdgeRuntime, db_name: &str, table_name: &str) -> (r:
    ServicePath)
    ensures
        r@.region_id == runtime.base_sp@.region_id,
        r@.cluster_id == runtime.base_sp@.cluster_id,
        r@.node_id == runtime.base_sp@.node_id,
        r@.resource_type == "swss-common-bridge"@,
        r@.resource_id == db_name@ + seq!['|'] + table_name@,
        r@.service_type == runtime.base_sp@.service_type,
        r@.service_id == runtime.base_sp@.service_id,
{
    proof {
        reveal_strlit("|");
    }
    let mut new_sp = runtime.get_base_sp();
    new_sp.resource_type = String::from_str("swss-common-bridge");
    let mut resource_id = String::new();
    resource_id.append(db_name);
    resource_id.append("|");
    resource_id.append(table_name);
    proof {
        assert(resource_id@ =~= db_name@ + seq!['|'] + table_name@);
    }
    new_sp.resource_id = resource_id;
    new_sp
}

} // verus!
