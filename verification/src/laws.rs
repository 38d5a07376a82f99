//! The bus's cross-cutting guarantees, stated over the same specifications
//! that the executable functions' contracts use, and proved once and for
//! all.

use crate::connection::ConnInfoView;
use crate::message::SwbusMessage;
use crate::multiplexer::{
    best_match, lemma_best_match_bounds, RouteEntry, SwbusMultiplexer,
};
use crate::nexthop::{
    local_decision, local_outcome_holds, local_responds, references_conn,
};
use crate::result::SwbusError;
use crate::service_path::{path_eq, PathView};
use vstd::prelude::*;
use vstd::seq_lib::*;

verus! {

/// The id handed out by the `k`-th call to `generate_message_id` of a
/// generator that started at `c0`: ids count up from `c0 + 1` with no gaps.
pub open spec fn id_of_call(c0: u64, k: nat) -> int {
    c0 + k
}

/// Id monotonicity: within one process, consecutive calls to
/// `generate_message_id` return strictly increasing values — of any two
/// calls on the same generator, the later returns the larger id. This is
/// the transition that `MessageIdGenerator::generate` ensures: each call
/// returns one more than its predecessor.
pub proof fn lemma_id_monotonicity(c0: u64, j: nat, k: nat)
    requires
        j < k,
    ensures
        id_of_call(c0, j) < id_of_call(c0, k),
{
}

/// Route determinism: resolution is a pure function of the route table and
/// the destination. Two resolutions against equal tables and equal
/// destinations choose the same row — `route` ensures its result equals
/// `best_match` of its table, so repeated calls on a fixed table agree.
pub proof fn lemma_route_determinism(
    routes_a: Seq<RouteEntry>,
    routes_b: Seq<RouteEntry>,
    dest_a: PathView,
    dest_b: PathView,
)
    requires
        routes_a == routes_b,
        dest_a == dest_b,
    ensures
        best_match(routes_a, dest_a) == best_match(routes_b, dest_b),
{
}

/// Connection teardown purges routes, first half: the table that
/// `unregister_routes_for_conn` leaves behind — the rows that do not
/// reference the dropped connection — contains no row referencing it.
pub proof fn lemma_purged_table_clean(routes: Seq<RouteEntry>, info: ConnInfoView)
    ensures
        ({
            let purged = routes.filter(|e: RouteEntry| !references_conn(e.nexthop, info));
            forall|i: int|
                0 <= i < purged.len() ==> !references_conn(#[trigger] purged[i].nexthop, info)
        }),
{
    let pred = |e: RouteEntry| !references_conn(e.nexthop, info);
    let purged = routes.filter(pred);
    assert forall|i: int| 0 <= i < purged.len() implies !references_conn(
        #[trigger] purged[i].nexthop,
        info,
    ) by {
        routes.lemma_filter_pred(pred, i);
    }
}

/// Connection teardown purges routes, second half: once no row of the table
/// references a connection, no resolution returns a next hop on it — the
/// resolved hop is either a table row or the synthetic local hop, which
/// references nothing.
pub proof fn lemma_teardown_purges_routes(
    routes: Seq<RouteEntry>,
    dest: PathView,
    info: ConnInfoView,
)
    requires
        forall|i: int|
            0 <= i < routes.len() ==> !references_conn(#[trigger] routes[i].nexthop, info),
    ensures
        best_match(routes, dest) >= 0 ==> !references_conn(
            routes[best_match(routes, dest)].nexthop,
            info,
        ),
{
    lemma_best_match_bounds(routes, dest, routes.len() as int);
}

/// The TTL left on a message that entered the bus with `t0` and has been
/// forwarded by `k` remote hops, each spending one unit.
pub open spec fn ttl_after_hops(t0: u32, k: nat) -> int {
    t0 - k
}

/// TTL termination: a message entering the bus with TTL `t0 >= 1` is
/// forwarded by at most `t0 - 1` remote hops. A remote hop forwards only
/// when the TTL it sees is at least 2 — with TTL 1 it produces the one
/// Unreachable reply instead and queues nothing, as
/// `remote_outcome_holds` states — so a chain of `k` forwards needs TTL at
/// least 2 at every step, which bounds `k` by `t0 - 1`; the message then
/// either reached a local terminus or died with exactly one Unreachable
/// response.
pub proof fn lemma_ttl_termination(t0: u32, k: nat)
    requires
        t0 >= 1,
        forall|j: nat| j < k ==> #[trigger] ttl_after_hops(t0, j) >= 2,
    ensures
        k <= t0 - 1,
        ttl_after_hops(t0, k) >= 1,
{
    if k > 0 {
        assert(ttl_after_hops(t0, (k - 1) as nat) >= 2);
    }
}

/// Response uniqueness at a terminus: a message that terminates at a local
/// next hop draws at most one response; the response exists exactly when
/// the local decision answers, correlates with the request's id, and is
/// addressed back to the request's source. Termination never fails: the
/// local path returns `Ok`.
pub proof fn lemma_response_uniqueness(
    r: Result<Option<SwbusMessage>, SwbusError>,
    pre: SwbusMultiplexer,
    post: SwbusMultiplexer,
    m: SwbusMessage,
)
    requires
        local_outcome_holds(r, pre, post, m),
    ensures
        r is Ok,
        (r->Ok_0 is Some) <==> local_responds(local_decision(m)),
        r->Ok_0 is Some ==> ({
            let resp = r->Ok_0->0;
            &&& resp.body is Response
            &&& resp.body->Response_0.request_id == m.header.id
            &&& path_eq(resp.header.destination@, m.header.source@)
        }),
{
}

} // verus!
