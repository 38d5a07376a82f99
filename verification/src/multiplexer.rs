//! The routing fabric: the route table with longest-prefix-match resolution,
//! the connection queue pool, the per-process message-id generator, and the
//! daemon's announced local routes.

use crate::connection::{conn_info_eq, ConnectionQueue, SwbusConnInfo, SwbusConnProxy};
use crate::message::{
    MessageIdGenerator, NextHopType, RouteQueryResult, RouteQueryResultEntry, SwbusMessage,
};
use crate::nexthop::{is_local_nexthop, nexthop_wf, references_conn, SwbusNextHop};
use crate::result::{SwbusError, SwbusErrorCode};
use crate::service_path::{key_specificity, path_eq, prefix_matches, PathView, ServicePath};
use vstd::prelude::*;
use vstd::string::StringExecFns;

verus! {

/// The scope at which a route was announced. Opaque to the core; carried
/// through into route exports.
#[derive(Clone, Copy, PartialEq, Eq, Structural, Debug)]
pub enum RouteScope {
    Client,
    Node,
    Cluster,
    Region,
    Global,
}

/// A route announced by this process: its key and its scope.
pub struct RouteConfig {
    pub key: ServicePath,
    pub scope: RouteScope,
}

impl Clone for RouteConfig {
    fn clone(&self) -> (r: Self)
        ensures
            r == *self,
    {
        RouteConfig { key: self.key.clone(), scope: self.scope }
    }
}

/// One row of the route table: a service-path prefix, the next hop it
/// resolves to, and the scope it was announced at.
pub struct RouteEntry {
    pub key: ServicePath,
    pub nexthop: SwbusNextHop,
    pub scope: RouteScope,
}

impl Clone for RouteEntry {
    fn clone(&self) -> (r: Self)
        ensures
            r == *self,
    {
        RouteEntry { key: self.key.clone(), nexthop: self.nexthop.clone(), scope: self.scope }
    }
}

/// Whether a table row's key prefix-matches a destination.
pub open spec fn entry_matches(e: RouteEntry, dest: PathView) -> bool {
    prefix_matches(e.key@, dest)
}

/// Strict preference between two matching rows: the longer prefix wins, and
/// on equal prefix length the smaller advertised distance wins.
pub open spec fn better_entry(a: RouteEntry, b: RouteEntry) -> bool {
    ||| key_specificity(a.key@) > key_specificity(b.key@)
    ||| (key_specificity(a.key@) == key_specificity(b.key@) && a.nexthop.hop_count
        < b.nexthop.hop_count)
}

/// The index of the best matching row among the first `n`, or `-1` when none
/// matches: longest prefix first, then smallest hop count, then earliest
/// installation.
pub open spec fn best_match_upto(routes: Seq<RouteEntry>, dest: PathView, n: int) -> int
    decreases n when n >= 0
{
    if n <= 0 {
        -1
    } else {
        let prev = best_match_upto(routes, dest, n - 1);
        if !entry_matches(routes[n - 1], dest) {
            prev
        } else if prev == -1 {
            n - 1
        } else if better_entry(routes[n - 1], routes[prev]) {
            n - 1
        } else {
            prev
        }
    }
}

/// The index of the best matching row of the whole table, or `-1`.
pub open spec fn best_match(routes: Seq<RouteEntry>, dest: PathView) -> int {
    best_match_upto(routes, dest, routes.len() as int)
}

/// The best-match index lies in range and names a matching row.
pub proof fn lemma_best_match_bounds(routes: Seq<RouteEntry>, dest: PathView, n: int)
    requires
        0 <= n <= routes.len(),
    ensures
        -1 <= best_match_upto(routes, dest, n) < n,
        best_match_upto(routes, dest, n) >= 0 ==> entry_matches(
            routes[best_match_upto(routes, dest, n)],
            dest,
        ),
    decreases n,
{
    if n > 0 {
        lemma_best_match_bounds(routes, dest, n - 1);
    }
}

/// The index of the first row whose key equals `key`, searching from `from`;
/// `-1` when no row has that key.
pub open spec fn find_key_from(routes: Seq<RouteEntry>, key: PathView, from: int) -> int
    decreases routes.len() - from when 0 <= from
{
    if from >= routes.len() {
        -1
    } else if path_eq(routes[from].key@, key) {
        from
    } else {
        find_key_from(routes, key, from + 1)
    }
}

/// The index of the first row keyed by `key`, or `-1`.
pub open spec fn find_key(routes: Seq<RouteEntry>, key: PathView) -> int {
    find_key_from(routes, key, 0)
}

/// `find_key_from` returns the position characterised by "no hit before, a
/// hit at, or no hit at all".
proof fn lemma_find_key_characterisation(routes: Seq<RouteEntry>, key: PathView, from: int, k: int)
    requires
        0 <= from <= k <= routes.len(),
        forall|j: int| from <= j < k ==> !path_eq(routes[j].key@, key),
        k < routes.len() ==> path_eq(routes[k].key@, key),
    ensures
        k < routes.len() ==> find_key_from(routes, key, from) == k,
        k == routes.len() ==> find_key_from(routes, key, from) == -1,
    decreases k - from,
{
    if from < k {
        lemma_find_key_characterisation(routes, key, from + 1, k);
    }
}

/// A well-formed route table against a pool of `queue_count` connection
/// queues: keys are pairwise distinct and every next hop is well-formed.
pub open spec fn routes_wf(routes: Seq<RouteEntry>, queue_count: int) -> bool {
    &&& forall|i: int, j: int|
        0 <= i < j < routes.len() ==> !path_eq(routes[i].key@, routes[j].key@)
    &&& forall|i: int| 0 <= i < routes.len() ==> nexthop_wf(#[trigger] routes[i].nexthop,
        queue_count)
}

/// The routing fabric of one daemon.
pub struct SwbusMultiplexer {
    /// The route table, in installation order.
    pub routes: Vec<RouteEntry>,
    /// The send queues of the known connections; next hops address them by
    /// index. Queues are never removed, so indices stay valid.
    pub queues: Vec<ConnectionQueue>,
    /// The per-process message-id generator.
    pub id_generator: MessageIdGenerator,
    /// The routes this process announces as local.
    pub my_routes: Vec<RouteConfig>,
    /// The daemon's own service path: the key of its first announced route.
    pub my_sp: ServicePath,
}

/// The multiplexer's invariant: its route table is well-formed against its
/// queue pool.
pub open spec fn mux_wf(m: SwbusMultiplexer) -> bool {
    routes_wf(m.routes@, m.queues@.len() as int)
}

/// Everything except the route table is unchanged.
pub open spec fn same_but_routes(a: SwbusMultiplexer, b: SwbusMultiplexer) -> bool {
    &&& a.queues == b.queues
    &&& a.id_generator == b.id_generator
    &&& a.my_routes == b.my_routes
    &&& a.my_sp == b.my_sp
}

impl SwbusMultiplexer {
    /// An empty multiplexer: no routes, no connections, ids from 1.
    pub fn new() -> (r: SwbusMultiplexer)
        ensures
            r.routes@.len() == 0,
            r.queues@.len() == 0,
            r.id_generator.counter == 0,
            r.my_routes@.len() == 0,
            r.my_sp@.region_id.len() == 0,
            mux_wf(r),
    {
        SwbusMultiplexer {
            routes: Vec::new(),
            queues: Vec::new(),
            id_generator: MessageIdGenerator::new(),
            my_routes: Vec::new(),
            my_sp: ServicePath::new_empty(),
        }
    }

    /// A strictly increasing, gapless message id, unique per process.
    pub fn generate_message_id(&mut self) -> (r: u64)
        requires
            old(self).id_generator.counter < u64::MAX,
        ensures
            r == old(self).id_generator.counter + 1,
            final(self).id_generator.counter == r,
            final(self).routes == old(self).routes,
            final(self).queues == old(self).queues,
            final(self).my_routes == old(self).my_routes,
            final(self).my_sp == old(self).my_sp,
    {
        self.id_generator.generate()
    }

    /// The daemon's own service path.
    pub fn get_my_service_path(&self) -> (r: ServicePath)
        ensures
            r == self.my_sp,
    {
        self.my_sp.clone()
    }

    /// Adopt a connection: give it a bounded send queue in the pool and hand
    /// back the proxy handle that addresses it.
    pub fn add_connection(&mut self, info: SwbusConnInfo, capacity: usize) -> (r: SwbusConnProxy)
        ensures
            r.queue_index == old(self).queues@.len(),
            final(self).queues@.len() == old(self).queues@.len() + 1,
            forall|i: int|
                0 <= i < old(self).queues@.len() ==> final(self).queues@[i] == old(self).queues@[i],
            final(self).queues@[r.queue_index as int].info == info,
            final(self).queues@[r.queue_index as int].messages@.len() == 0,
            final(self).queues@[r.queue_index as int].capacity == capacity,
            final(self).routes == old(self).routes,
            final(self).id_generator == old(self).id_generator,
            final(self).my_routes == old(self).my_routes,
            final(self).my_sp == old(self).my_sp,
            mux_wf(*old(self)) ==> mux_wf(*final(self)),
    {
        let index = self.queues.len();
        self.queues.push(ConnectionQueue { info, messages: Vec::new(), capacity });
        SwbusConnProxy { queue_index: index }
    }

    /// Submit a message to the send queue a proxy addresses. Refused with a
    /// `ResourceExhausted` infrastructure error when the queue is saturated;
    /// the caller decides whether to drop or to signal no-route.
    pub fn try_queue(&mut self, proxy: SwbusConnProxy, message: SwbusMessage) -> (r: Result<
        (),
        SwbusError,
    >)
        requires
            proxy.queue_index < old(self).queues@.len(),
        ensures
            final(self).routes == old(self).routes,
            final(self).id_generator == old(self).id_generator,
            final(self).my_routes == old(self).my_routes,
            final(self).my_sp == old(self).my_sp,
            final(self).queues@.len() == old(self).queues@.len(),
            forall|i: int|
                0 <= i < old(self).queues@.len() && i != proxy.queue_index ==> final(self).queues@[i] == old(self).queues@[i],
            ({
                let q = old(self).queues@[proxy.queue_index as int];
                if q.messages@.len() < q.capacity {
                    &&& r is Ok
                    &&& final(self).queues@[proxy.queue_index as int].messages@ == q.messages@.push(
                        message,
                    )
                    &&& final(self).queues@[proxy.queue_index as int].info == q.info
                    &&& final(self).queues@[proxy.queue_index as int].capacity == q.capacity
                } else {
                    &&& r is Err
                    &&& r->Err_0 is Internal
                    &&& crate::result::error_code_of(r->Err_0) == SwbusErrorCode::ResourceExhausted
                    &&& final(self).queues == old(self).queues
                }
            }),
            mux_wf(*old(self)) ==> mux_wf(*final(self)),
    {
        let index = proxy.queue_index;
        if self.queues[index].messages.len() < self.queues[index].capacity {
            let queue = &mut self.queues[index];
            queue.messages.push(message);
            Ok(())
        } else {
            Err(SwbusError::internal(
                SwbusErrorCode::ResourceExhausted,
                String::from_str("send queue full"),
            ))
        }
    }

    /// Resolve a destination against the route table: the best row by longest
    /// prefix, then smallest hop count, then earliest installation. Returns
    /// that row's next hop and `true`; or, when nothing matches, a synthetic
    /// local next hop and `false`, whose only effect downstream is a NoRoute
    /// response. Resolution is pure: a fixed table always yields the same
    /// choice.
    pub fn route(&self, destination: &ServicePath) -> (r: (SwbusNextHop, bool))
        ensures
            ({
                let best = best_match(self.routes@, destination@);
                if best == -1 {
                    is_local_nexthop(r.0) && r.1 == false
                } else {
                    r.0 == self.routes@[best].nexthop && r.1 == true
                }
            }),
    {
        let n = self.routes.len();
        let mut best: Option<usize> = None;
        let mut i: usize = 0;
        while i < n
            invariant
                0 <= i <= n,
                n == self.routes@.len(),
                match best {
                    None => best_match_upto(self.routes@, destination@, i as int) == -1,
                    Some(b) => b < i && best_match_upto(self.routes@, destination@, i as int)
                        == b as int,
                },
            decreases n - i,
        {
            let entry = &self.routes[i];
            if entry.key.prefix_match(destination) {
                match best {
                    None => {
                        best = Some(i);
                    },
                    Some(b) => {
                        let cur = &self.routes[b];
                        let entry_spec = entry.key.specificity();
                        let cur_spec = cur.key.specificity();
                        if entry_spec > cur_spec || (entry_spec == cur_spec
                            && entry.nexthop.hop_count < cur.nexthop.hop_count) {
                            best = Some(i);
                        }
                    },
                }
            }
            i = i + 1;
        }
        match best {
            Some(b) => (self.routes[b].nexthop.clone(), true),
            None => (SwbusNextHop::new_local(), false),
        }
    }
}

/// A table row survives an export filter: no filter, or the filter prefix
/// matches the row's key.
pub open spec fn export_kept(e: RouteEntry, filter: Option<PathView>) -> bool {
    match filter {
        None => true,
        Some(f) => prefix_matches(f, e.key@),
    }
}

/// A snapshot row faithfully renders a table row: same key, distance, kind
/// and scope, and the connection identity text for remote hops.
pub open spec fn export_entry_matches(x: RouteQueryResultEntry, e: RouteEntry) -> bool {
    &&& path_eq(x.service_path@, e.key@)
    &&& x.hop_count == e.nexthop.hop_count
    &&& x.nh_type == e.nexthop.nh_type
    &&& x.nh_scope == e.scope
    &&& match e.nexthop.conn_info {
        Some(ci) => x.nh_id@ == crate::connection::conn_id_text(ci@),
        None => x.nh_id@.len() == 0,
    }
}

/// Some table row is keyed by `key`.
pub open spec fn has_key(routes: Seq<RouteEntry>, key: PathView) -> bool {
    exists|i: int| 0 <= i < routes.len() && path_eq(#[trigger] routes[i].key@, key)
}

/// Some table row is keyed by `key` and terminates locally.
pub open spec fn has_local_route(routes: Seq<RouteEntry>, key: PathView) -> bool {
    exists|i: int|
        0 <= i < routes.len() && path_eq(#[trigger] routes[i].key@, key) && is_local_nexthop(
            routes[i].nexthop,
        )
}

/// A found key index is in range and names a row with that key.
pub proof fn lemma_find_key_bounds(routes: Seq<RouteEntry>, key: PathView, from: int)
    requires
        0 <= from <= routes.len(),
    ensures
        find_key_from(routes, key, from) == -1 || from <= find_key_from(routes, key, from)
            < routes.len(),
        find_key_from(routes, key, from) >= 0 ==> path_eq(
            routes[find_key_from(routes, key, from)].key@,
            key,
        ),
    decreases routes.len() - from,
{
    if from < routes.len() && !path_eq(routes[from].key@, key) {
        lemma_find_key_bounds(routes, key, from + 1);
    }
}

/// An export without a filter keeps every table row.
pub proof fn lemma_export_filter_none(s: Seq<RouteEntry>)
    ensures
        s.filter(|e: RouteEntry| export_kept(e, None)) == s,
    decreases s.len(),
{
    reveal(Seq::filter);
    if s.len() > 0 {
        lemma_export_filter_none(s.drop_last());
        assert(s.filter(|e: RouteEntry| export_kept(e, None)) =~= s);
    } else {
        assert(s.filter(|e: RouteEntry| export_kept(e, None)) =~= s);
    }
}

/// `filter` over one more element: the element is appended exactly when the
/// predicate holds of it.
proof fn lemma_filter_step<A>(s: Seq<A>, pred: spec_fn(A) -> bool, i: int)
    requires
        0 <= i < s.len(),
    ensures
        s.subrange(0, i + 1).filter(pred) == if pred(s[i]) {
            s.subrange(0, i).filter(pred).push(s[i])
        } else {
            s.subrange(0, i).filter(pred)
        },
{
    reveal(Seq::filter);
    let t = s.subrange(0, i + 1);
    assert(t.drop_last() =~= s.subrange(0, i));
    assert(t.last() == s[i]);
}

impl SwbusMultiplexer {
    /// Install a route. A fresh key is appended; at an existing key the
    /// smaller advertised distance wins, and on a tie the installed route is
    /// kept.
    #[verifier::loop_isolation(false)]
    pub fn register_route(&mut self, key: ServicePath, nexthop: SwbusNextHop, scope: RouteScope)
        requires
            mux_wf(*old(self)),
            nexthop_wf(nexthop, old(self).queues@.len() as int),
        ensures
            mux_wf(*final(self)),
            same_but_routes(*final(self), *old(self)),
            ({
                let existing = find_key(old(self).routes@, key@);
                if existing == -1 {
                    final(self).routes@ == old(self).routes@.push(
                        RouteEntry { key, nexthop, scope },
                    )
                } else if nexthop.hop_count < old(self).routes@[existing].nexthop.hop_count {
                    final(self).routes@ == old(self).routes@.update(
                        existing,
                        RouteEntry { key, nexthop, scope },
                    )
                } else {
                    final(self).routes@ == old(self).routes@
                }
            }),
    {
        let n = self.routes.len();
        let mut i: usize = 0;
        while i < n
            invariant
                0 <= i <= n,
                n == self.routes@.len(),
                *self == *old(self),
                forall|j: int| 0 <= j < i ==> !path_eq(self.routes@[j].key@, key@),
            decreases n - i,
        {
            if self.routes[i].key.eq_path(&key) {
                proof {
                    lemma_find_key_characterisation(self.routes@, key@, 0, i as int);
                }
                if nexthop.hop_count < self.routes[i].nexthop.hop_count {
                    let ghost pre = self.routes@;
                    self.routes[i] = RouteEntry { key, nexthop, scope };
                    proof {
                        assert forall|a: int, b: int|
                            0 <= a < b < self.routes@.len() implies !path_eq(
                            self.routes@[a].key@,
                            self.routes@[b].key@,
                        ) by {
                            assert(path_eq(pre[i as int].key@, self.routes@[i as int].key@));
                            assert(a != i ==> self.routes@[a] == pre[a]);
                            assert(b != i ==> self.routes@[b] == pre[b]);
                            assert(!path_eq(pre[a].key@, pre[b].key@));
                        }
                    }
                }
                return ;
            }
            i = i + 1;
        }
        proof {
            lemma_find_key_characterisation(self.routes@, key@, 0, n as int);
        }
        self.routes.push(RouteEntry { key, nexthop, scope });
    }

    /// Install a local route for an announced key, replacing whatever row
    /// held the key before.
    #[verifier::loop_isolation(false)]
    fn install_local_route(&mut self, key: ServicePath, scope: RouteScope)
        requires
            mux_wf(*old(self)),
        ensures
            mux_wf(*final(self)),
            same_but_routes(*final(self), *old(self)),
            has_local_route(final(self).routes@, key@),
            ({
                let existing = find_key(old(self).routes@, key@);
                if existing == -1 {
                    final(self).routes@.len() == old(self).routes@.len() + 1 && (forall|i: int|
                        0 <= i < old(self).routes@.len() ==> final(self).routes@[i] == old(self).routes@[i])
                        && final(self).routes@.last().key == key && is_local_nexthop(
                        final(self).routes@.last().nexthop,
                    ) && final(self).routes@.last().scope == scope
                } else {
                    final(self).routes@.len() == old(self).routes@.len() && (forall|i: int|
                        0 <= i < old(self).routes@.len() && i != existing
                        ==> final(self).routes@[i] == old(self).routes@[i])
                        && final(self).routes@[existing].key == key && is_local_nexthop(
                        final(self).routes@[existing].nexthop,
                    ) && final(self).routes@[existing].scope == scope
                }
            }),
    {
        let entry = RouteEntry { key, nexthop: SwbusNextHop::new_local(), scope };
        let n = self.routes.len();
        let mut i: usize = 0;
        while i < n
            invariant
                0 <= i <= n,
                n == self.routes@.len(),
                *self == *old(self),
                forall|j: int| 0 <= j < i ==> !path_eq(self.routes@[j].key@, entry.key@),
            decreases n - i,
        {
            if self.routes[i].key.eq_path(&entry.key) {
                proof {
                    lemma_find_key_characterisation(self.routes@, entry.key@, 0, i as int);
                }
                let ghost pre = self.routes@;
                let ghost entry_snap = entry;
                self.routes[i] = entry;
                proof {
                    assert(self.routes@ == pre.update(i as int, entry_snap));
                    assert forall|a: int, b: int|
                        0 <= a < b < self.routes@.len() implies !path_eq(
                        self.routes@[a].key@,
                        self.routes@[b].key@,
                    ) by {
                        assert(path_eq(pre[i as int].key@, self.routes@[i as int].key@));
                        assert(a != i ==> self.routes@[a] == pre[a]);
                        assert(b != i ==> self.routes@[b] == pre[b]);
                        assert(!path_eq(pre[a].key@, pre[b].key@));
                    }
                    assert(path_eq(self.routes@[i as int].key@, entry_snap.key@));
                    assert(is_local_nexthop(self.routes@[i as int].nexthop));
                    assert(has_local_route(self.routes@, entry_snap.key@));
                }
                return ;
            }
            i = i + 1;
        }
        proof {
            lemma_find_key_characterisation(self.routes@, entry.key@, 0, n as int);
        }
        let ghost entry_snap = entry;
        self.routes.push(entry);
        proof {
            let last = self.routes@.len() - 1;
            assert(self.routes@[last] == entry_snap);
            assert(path_eq(self.routes@[last].key@, entry_snap.key@));
            assert(is_local_nexthop(self.routes@[last].nexthop));
            assert(has_local_route(self.routes@, entry_snap.key@));
        }
    }

    /// Tear a connection out of the route table: every row whose next hop
    /// references the given descriptor is removed, atomically; the rest keep
    /// their order. No later resolution can return a next hop on that
    /// connection.
    #[verifier::loop_isolation(false)]
    pub fn unregister_routes_for_conn(&mut self, conn_info: &SwbusConnInfo)
        requires
            mux_wf(*old(self)),
        ensures
            mux_wf(*final(self)),
            same_but_routes(*final(self), *old(self)),
            final(self).routes@ == old(self).routes@.filter(
                |e: RouteEntry| !references_conn(e.nexthop, conn_info@),
            ),
            forall|i: int|
                0 <= i < final(self).routes@.len() ==> !references_conn(
                    (#[trigger] final(self).routes@[i]).nexthop,
                    conn_info@,
                ),
            forall|i: int|
                0 <= i < old(self).routes@.len() && !references_conn(
                    (#[trigger] old(self).routes@[i]).nexthop,
                    conn_info@,
                ) ==> final(self).routes@.contains(old(self).routes@[i]),
    {
        let ghost civ = conn_info@;
        let ghost keep = |e: RouteEntry| !references_conn(e.nexthop, civ);
        let mut kept: Vec<RouteEntry> = Vec::new();
        let n = self.routes.len();
        let mut i: usize = 0;
        while i < n
            invariant
                0 <= i <= n,
                n == self.routes@.len(),
                *self == *old(self),
                mux_wf(*old(self)),
                kept@ == self.routes@.subrange(0, i as int).filter(keep),
                forall|j: int|
                    0 <= j < kept@.len() ==> !references_conn(
                        (#[trigger] kept@[j]).nexthop,
                        civ,
                    ),
                forall|p: int|
                    0 <= p < i && !references_conn(
                        (#[trigger] self.routes@[p]).nexthop,
                        civ,
                    ) ==> kept@.contains(self.routes@[p]),
                forall|j: int|
                    0 <= j < kept@.len() ==> exists|p: int|
                        0 <= p < i && #[trigger] kept@[j] == #[trigger] self.routes@[p],
                forall|a: int, b: int|
                    0 <= a < b < kept@.len() ==> !path_eq(kept@[a].key@, kept@[b].key@),
                forall|a: int|
                    0 <= a < kept@.len() ==> nexthop_wf(
                        #[trigger] kept@[a].nexthop,
                        self.queues@.len() as int,
                    ),
            decreases n - i,
        {
            let drop_it = match &self.routes[i].nexthop.conn_info {
                Some(ci) => ci.eq_info(conn_info),
                None => false,
            };
            proof {
                assert(keep(self.routes@[i as int]) == !drop_it);
                lemma_filter_step(self.routes@, keep, i as int);
                if !drop_it {
                    assert forall|a: int| 0 <= a < kept@.len() implies !path_eq(
                        kept@[a].key@,
                        self.routes@[i as int].key@,
                    ) by {
                        let pa = choose|p: int|
                            0 <= p < i && kept@[a] == #[trigger] self.routes@[p];
                    }
                }
            }
            if !drop_it {
                let ghost kept_pre = kept@;
                kept.push(self.routes[i].clone());
                proof {
                    assert(kept@[kept@.len() - 1] == self.routes@[i as int]);
                    assert forall|p: int|
                        0 <= p < i + 1 && !references_conn(
                            (#[trigger] self.routes@[p]).nexthop,
                            civ,
                        ) implies kept@.contains(self.routes@[p]) by {
                        if p == i {
                            assert(kept@[kept@.len() - 1] == self.routes@[p]);
                        } else {
                            let k = choose|k: int|
                                0 <= k < kept_pre.len() && kept_pre[k] == self.routes@[p];
                            assert(kept@[k] == self.routes@[p]);
                        }
                    }
                }
            }
            i = i + 1;
        }
        proof {
            assert(self.routes@.subrange(0, n as int) =~= self.routes@);
        }
        self.routes = kept;
    }

    /// Announce this process's local routes: remember them, adopt the first
    /// key as the daemon's own service path, and install a local next hop for
    /// each announced key.
    #[verifier::loop_isolation(false)]
    pub fn set_my_routes(&mut self, routes: Vec<RouteConfig>)
        requires
            mux_wf(*old(self)),
        ensures
            mux_wf(*final(self)),
            final(self).queues == old(self).queues,
            final(self).id_generator == old(self).id_generator,
            final(self).my_routes == routes,
            routes@.len() > 0 ==> final(self).my_sp == routes@[0].key,
            routes@.len() == 0 ==> final(self).my_sp == old(self).my_sp,
            forall|j: int|
                0 <= j < routes@.len() ==> has_local_route(final(self).routes@, routes@[j].key@),
            forall|i: int|
                0 <= i < old(self).routes@.len() ==> has_key(
                    final(self).routes@,
                    (#[trigger] old(self).routes@[i]).key@,
                ),
    {
        self.my_routes = routes;
        if self.my_routes.len() > 0 {
            self.my_sp = self.my_routes[0].key.clone();
        }
        let count = self.my_routes.len();
        let mut j: usize = 0;
        while j < count
            invariant
                0 <= j <= count,
                count == self.my_routes@.len(),
                mux_wf(*self),
                self.queues == old(self).queues,
                self.id_generator == old(self).id_generator,
                self.my_routes == routes,
                routes@.len() > 0 ==> self.my_sp == routes@[0].key,
                routes@.len() == 0 ==> self.my_sp == old(self).my_sp,
                forall|jj: int|
                    0 <= jj < j ==> has_local_route(self.routes@, routes@[jj].key@),
                forall|i: int|
                    0 <= i < old(self).routes@.len() ==> has_key(
                        self.routes@,
                        (#[trigger] old(self).routes@[i]).key@,
                    ),
            decreases count - j,
        {
            let key = self.my_routes[j].key.clone();
            let scope = self.my_routes[j].scope;
            let ghost pre_routes = self.routes@;
            self.install_local_route(key, scope);
            proof {
                assert forall|i: int| 0 <= i < old(self).routes@.len() implies has_key(
                    self.routes@,
                    (#[trigger] old(self).routes@[i]).key@,
                ) by {
                    let w = choose|w: int|
                        0 <= w < pre_routes.len() && path_eq(
                            #[trigger] pre_routes[w].key@,
                            old(self).routes@[i].key@,
                        );
                    let existing = find_key(pre_routes, key@);
                    lemma_find_key_bounds(pre_routes, key@, 0);
                    if existing >= 0 && w == existing {
                        assert(path_eq(self.routes@[w].key@, old(self).routes@[i].key@));
                    } else {
                        assert(self.routes@[w] == pre_routes[w]);
                    }
                }
                assert forall|jj: int| 0 <= jj < j + 1 implies has_local_route(
                    self.routes@,
                    routes@[jj].key@,
                ) by {
                    if jj < j {
                        let w = choose|w: int|
                            0 <= w < pre_routes.len() && path_eq(
                                #[trigger] pre_routes[w].key@,
                                routes@[jj].key@,
                            ) && is_local_nexthop(pre_routes[w].nexthop);
                        let existing = find_key(pre_routes, key@);
                        lemma_find_key_bounds(pre_routes, key@, 0);
                        if existing >= 0 && w == existing {
                            assert(path_eq(self.routes@[w].key@, routes@[jj].key@));
                            assert(is_local_nexthop(self.routes@[w].nexthop));
                        } else {
                            assert(self.routes@[w] == pre_routes[w]);
                        }
                    }
                }
            }
            j = j + 1;
        }
    }

    /// A snapshot of the route table, optionally narrowed to the rows whose
    /// key the given prefix matches: one row per surviving table entry, in
    /// table order, carrying key, kind, distance, scope and the remote
    /// endpoint identity.
    #[verifier::loop_isolation(false)]
    pub fn export_routes(&self, filter: Option<&ServicePath>) -> (r: RouteQueryResult)
        ensures
            ({
                let fview = match filter {
                    Some(f) => Some(f@),
                    None => None,
                };
                let kept = self.routes@.filter(|e: RouteEntry| export_kept(e, fview));
                r.entries@.len() == kept.len() && forall|i: int|
                    0 <= i < kept.len() ==> export_entry_matches(#[trigger] r.entries@[i], kept[i])
            }),
    {
        let ghost fview = match filter {
            Some(f) => Some(f@),
            None => None,
        };
        let ghost pred = |e: RouteEntry| export_kept(e, fview);
        let mut entries: Vec<RouteQueryResultEntry> = Vec::new();
        let n = self.routes.len();
        let mut i: usize = 0;
        while i < n
            invariant
                0 <= i <= n,
                n == self.routes@.len(),
                ({
                    let kept = self.routes@.subrange(0, i as int).filter(pred);
                    entries@.len() == kept.len() && forall|k: int|
                        0 <= k < kept.len() ==> export_entry_matches(
                            #[trigger] entries@[k],
                            kept[k],
                        )
                }),
            decreases n - i,
        {
            let keep_it = match filter {
                Some(f) => f.prefix_match(&self.routes[i].key),
                None => true,
            };
            proof {
                assert(pred(self.routes@[i as int]) == keep_it);
                lemma_filter_step(self.routes@, pred, i as int);
            }
            if keep_it {
                let entry = &self.routes[i];
                let nh_id = match &entry.nexthop.conn_info {
                    Some(ci) => ci.id(),
                    None => String::new(),
                };
                entries.push(
                    RouteQueryResultEntry {
                        service_path: entry.key.clone(),
                        hop_count: entry.nexthop.hop_count,
                        nh_type: entry.nexthop.nh_type,
                        nh_scope: entry.scope,
                        nh_id,
                    },
                );
            }
            i = i + 1;
        }
        proof {
            assert(self.routes@.subrange(0, n as int) =~= self.routes@);
        }
        RouteQueryResult { entries }
    }
}

impl Default for SwbusMultiplexer {
    /// An empty multiplexer, as `new` builds it.
    fn default() -> (r: SwbusMultiplexer)
        ensures
            r.routes@.len() == 0,
            r.queues@.len() == 0,
            r.id_generator.counter == 0,
            r.my_routes@.len() == 0,
            mux_wf(r),
    {
        SwbusMultiplexer::new()
    }
}

} // verus!
