//! Hierarchical bus address: `region.cluster.node/resource_type/resource_id/service_type/service_id`.
//!
//! The trailing resource and service pairs may be absent; an address with an
//! empty `service_type` denotes the bus daemon itself.

use crate::result::{SwbusError, SwbusErrorCode};
use vstd::prelude::*;
use vstd::string::StrSliceExecFns;
use vstd::string::StringExecFns;

verus! {

/// A hierarchical bus address. Both a routing key and a mailbox identifier.
pub struct ServicePath {
    pub region_id: String,
    pub cluster_id: String,
    pub node_id: String,
    pub resource_type: String,
    pub resource_id: String,
    pub service_type: String,
    pub service_id: String,
}

/// The mathematical value of a `ServicePath`: its seven components as
/// character sequences.
pub struct PathView {
    pub region_id: Seq<char>,
    pub cluster_id: Seq<char>,
    pub node_id: Seq<char>,
    pub resource_type: Seq<char>,
    pub resource_id: Seq<char>,
    pub service_type: Seq<char>,
    pub service_id: Seq<char>,
}

impl View for ServicePath {
    type V = PathView;

    open spec fn view(&self) -> PathView {
        PathView {
            region_id: self.region_id@,
            cluster_id: self.cluster_id@,
            node_id: self.node_id@,
            resource_type: self.resource_type@,
            resource_id: self.resource_id@,
            service_type: self.service_type@,
            service_id: self.service_id@,
        }
    }
}

/// A geographic component (region or cluster): non-empty, and free of the
/// separators `.` and `/`.
pub open spec fn valid_geo_component(s: Seq<char>) -> bool {
    s.len() > 0 && forall|i: int| 0 <= i < s.len() ==> s[i] != '.' && s[i] != '/'
}

/// A node, resource or service component: non-empty and free of `/`.
/// (A node id may contain dots, as in `10.0.0.2-dpu0`.)
pub open spec fn valid_component(s: Seq<char>) -> bool {
    s.len() > 0 && forall|i: int| 0 <= i < s.len() ==> s[i] != '/'
}

/// Whether the resource pair (`resource_type`, `resource_id`) is present.
pub open spec fn has_resource(v: PathView) -> bool {
    v.resource_type.len() > 0 || v.resource_id.len() > 0
}

/// Whether the service pair (`service_type`, `service_id`) is present.
pub open spec fn has_service(v: PathView) -> bool {
    v.service_type.len() > 0 || v.service_id.len() > 0
}

/// A well-formed address: the three geographic levels are present, and the
/// resource and service pairs are either absent or fully present, nesting
/// outward (a service pair requires a resource pair).
pub open spec fn wellformed(v: PathView) -> bool {
    &&& valid_geo_component(v.region_id)
    &&& valid_geo_component(v.cluster_id)
    &&& valid_component(v.node_id)
    &&& has_resource(v) ==> valid_component(v.resource_type) && valid_component(v.resource_id)
    &&& has_service(v) ==> valid_component(v.service_type) && valid_component(v.service_id)
        && has_resource(v)
}

/// The textual rendering of an address, as `to_path_string` produces it.
pub open spec fn path_text(v: PathView) -> Seq<char> {
    let base = v.region_id + seq!['.'] + v.cluster_id + seq!['.'] + v.node_id;
    if has_resource(v) {
        let with_resource = base + seq!['/'] + v.resource_type + seq!['/'] + v.resource_id;
        if has_service(v) {
            with_resource + seq!['/'] + v.service_type + seq!['/'] + v.service_id
        } else {
            with_resource
        }
    } else {
        base
    }
}

/// Componentwise equality of two addresses.
pub open spec fn path_eq(a: PathView, b: PathView) -> bool {
    &&& a.region_id == b.region_id
    &&& a.cluster_id == b.cluster_id
    &&& a.node_id == b.node_id
    &&& a.resource_type == b.resource_type
    &&& a.resource_id == b.resource_id
    &&& a.service_type == b.service_type
    &&& a.service_id == b.service_id
}

/// Prefix match of a route key against a destination: every non-empty
/// component of the key equals the destination's component.
pub open spec fn prefix_matches(key: PathView, dest: PathView) -> bool {
    &&& key.region_id.len() > 0 ==> dest.region_id == key.region_id
    &&& key.cluster_id.len() > 0 ==> dest.cluster_id == key.cluster_id
    &&& key.node_id.len() > 0 ==> dest.node_id == key.node_id
    &&& key.resource_type.len() > 0 ==> dest.resource_type == key.resource_type
    &&& key.resource_id.len() > 0 ==> dest.resource_id == key.resource_id
    &&& key.service_type.len() > 0 ==> dest.service_type == key.service_type
    &&& key.service_id.len() > 0 ==> dest.service_id == key.service_id
}

/// The number of non-empty components of a route key: the length of the
/// prefix it pins down, used for longest-prefix-match ranking.
pub open spec fn key_specificity(v: PathView) -> int {
    (if v.region_id.len() > 0 { 1int } else { 0int })
    + (if v.cluster_id.len() > 0 { 1int } else { 0int })
    + (if v.node_id.len() > 0 { 1int } else { 0int })
    + (if v.resource_type.len() > 0 { 1int } else { 0int })
    + (if v.resource_id.len() > 0 { 1int } else { 0int })
    + (if v.service_type.len() > 0 { 1int } else { 0int })
    + (if v.service_id.len() > 0 { 1int } else { 0int })
}

impl ServicePath {
    /// An address with every component empty; the protobuf-style default.
    pub fn new_empty() -> (r: ServicePath)
        ensures
            r@.region_id.len() == 0,
            r@.cluster_id.len() == 0,
            r@.node_id.len() == 0,
            r@.resource_type.len() == 0,
            r@.resource_id.len() == 0,
            r@.service_type.len() == 0,
            r@.service_id.len() == 0,
    {
        ServicePath {
            region_id: String::new(),
            cluster_id: String::new(),
            node_id: String::new(),
            resource_type: String::new(),
            resource_id: String::new(),
            service_type: String::new(),
            service_id: String::new(),
        }
    }

    /// Componentwise equality test.
    pub fn eq_path(&self, other: &ServicePath) -> (r: bool)
        ensures
            r == path_eq(self@, other@),
    {
        self.region_id == other.region_id && self.cluster_id == other.cluster_id
            && self.node_id == other.node_id && self.resource_type == other.resource_type
            && self.resource_id == other.resource_id && self.service_type == other.service_type
            && self.service_id == other.service_id
    }

    /// The number of non-empty components: how specific this address is as a
    /// route key.
    pub fn specificity(&self) -> (r: u32)
        ensures
            r as int == key_specificity(self@),
    {
        let mut count: u32 = 0;
        if !self.region_id.as_str().is_empty() {
            count = count + 1;
        }
        if !self.cluster_id.as_str().is_empty() {
            count = count + 1;
        }
        if !self.node_id.as_str().is_empty() {
            count = count + 1;
        }
        if !self.resource_type.as_str().is_empty() {
            count = count + 1;
        }
        if !self.resource_id.as_str().is_empty() {
            count = count + 1;
        }
        if !self.service_type.as_str().is_empty() {
            count = count + 1;
        }
        if !self.service_id.as_str().is_empty() {
            count = count + 1;
        }
        count
    }

    /// Prefix match of `self` as a route key against a destination:
    /// every non-empty component of `self` must equal the destination's.
    pub fn prefix_match(&self, dest: &ServicePath) -> (r: bool)
        ensures
            r == prefix_matches(self@, dest@),
    {
        (self.region_id.as_str().is_empty() || self.region_id == dest.region_id)
            && (self.cluster_id.as_str().is_empty() || self.cluster_id == dest.cluster_id)
            && (self.node_id.as_str().is_empty() || self.node_id == dest.node_id)
            && (self.resource_type.as_str().is_empty() || self.resource_type == dest.resource_type)
            && (self.resource_id.as_str().is_empty() || self.resource_id == dest.resource_id)
            && (self.service_type.as_str().is_empty() || self.service_type == dest.service_type)
            && (self.service_id.as_str().is_empty() || self.service_id == dest.service_id)
    }
}

/// The first position of `c` in `s` at or after `from`; the length of `s`
/// when `c` does not occur there.
pub open spec fn spec_find(s: Seq<char>, c: char, from: int) -> int
    decreases s.len() - from when 0 <= from
{
    if from >= s.len() {
        s.len() as int
    } else if s[from] == c {
        from
    } else {
        spec_find(s, c, from + 1)
    }
}

/// `spec_find` returns the position characterised by "no occurrence before,
/// an occurrence at, or the end".
proof fn lemma_find_characterisation(s: Seq<char>, c: char, from: int, k: int)
    requires
        0 <= from <= k <= s.len(),
        forall|j: int| from <= j < k ==> s[j] != c,
        k < s.len() ==> s[k] == c,
    ensures
        spec_find(s, c, from) == k,
    decreases k - from,
{
    if from < k {
        lemma_find_characterisation(s, c, from + 1, k);
    }
}

/// Basic bounds and content facts about `spec_find`.
proof fn lemma_find_facts(s: Seq<char>, c: char, from: int)
    requires
        0 <= from <= s.len(),
    ensures
        from <= spec_find(s, c, from) <= s.len(),
        spec_find(s, c, from) < s.len() ==> s[spec_find(s, c, from)] == c,
        forall|j: int| from <= j < spec_find(s, c, from) ==> s[j] != c,
    decreases s.len() - from,
{
    if from < s.len() && s[from] != c {
        lemma_find_facts(s, c, from + 1);
    }
}

/// The deterministic parse of an address text: the component layout that
/// `from_string` accepts, `None` where the text is not a valid address.
pub open spec fn spec_parse(s: Seq<char>) -> Option<PathView> {
    let n = s.len() as int;
    let d1 = spec_find(s, '.', 0);
    let d2 = spec_find(s, '.', d1 + 1);
    let sl = spec_find(s, '/', 0);
    if d1 == n || d2 == n || sl <= d2 {
        None
    } else {
        let region_id = s.subrange(0, d1);
        let cluster_id = s.subrange(d1 + 1, d2);
        let node_id = s.subrange(d2 + 1, sl);
        if region_id.len() == 0 || cluster_id.len() == 0 || node_id.len() == 0 {
            None
        } else if sl == n {
            Some(PathView {
                region_id,
                cluster_id,
                node_id,
                resource_type: Seq::empty(),
                resource_id: Seq::empty(),
                service_type: Seq::empty(),
                service_id: Seq::empty(),
            })
        } else {
            let s2 = spec_find(s, '/', sl + 1);
            let resource_type = s.subrange(sl + 1, s2);
            if s2 == n || resource_type.len() == 0 {
                None
            } else {
                let s3 = spec_find(s, '/', s2 + 1);
                if s3 == n {
                    let resource_id = s.subrange(s2 + 1, n);
                    if resource_id.len() == 0 {
                        None
                    } else {
                        Some(PathView {
                            region_id,
                            cluster_id,
                            node_id,
                            resource_type,
                            resource_id,
                            service_type: Seq::empty(),
                            service_id: Seq::empty(),
                        })
                    }
                } else {
                    let resource_id = s.subrange(s2 + 1, s3);
                    let s4 = spec_find(s, '/', s3 + 1);
                    if resource_id.len() == 0 || s4 == n {
                        None
                    } else {
                        let service_type = s.subrange(s3 + 1, s4);
                        let s5 = spec_find(s, '/', s4 + 1);
                        let service_id = s.subrange(s4 + 1, n);
                        if service_type.len() == 0 || s5 != n || service_id.len() == 0 {
                            None
                        } else {
                            Some(PathView {
                                region_id,
                                cluster_id,
                                node_id,
                                resource_type,
                                resource_id,
                                service_type,
                                service_id,
                            })
                        }
                    }
                }
            }
        }
    }
}

/// Parsing and rendering round-trip: every text the parser accepts parses
/// to a well-formed address whose rendering is that text again — so
/// `to_path_string` after `from_string` returns the input, and `from_string`
/// after `to_path_string` returns the address, for every address the parser
/// can produce.
pub proof fn lemma_parse_round_trip(s: Seq<char>)
    requires
        spec_parse(s) is Some,
    ensures
        wellformed(spec_parse(s)->0),
        path_text(spec_parse(s)->0) == s,
{
    let n = s.len() as int;
    let d1 = spec_find(s, '.', 0);
    lemma_find_facts(s, '.', 0);
    let d2 = spec_find(s, '.', d1 + 1);
    lemma_find_facts(s, '.', d1 + 1);
    let sl = spec_find(s, '/', 0);
    lemma_find_facts(s, '/', 0);
    let v = spec_parse(s)->0;
    assert(valid_geo_component(v.region_id));
    assert(valid_geo_component(v.cluster_id));
    assert(valid_component(v.node_id));
    if sl == n {
        assert(path_text(v) =~= s);
    } else {
        let s2 = spec_find(s, '/', sl + 1);
        lemma_find_facts(s, '/', sl + 1);
        let s3 = spec_find(s, '/', s2 + 1);
        lemma_find_facts(s, '/', s2 + 1);
        assert(valid_component(v.resource_type));
        if s3 == n {
            assert(valid_component(v.resource_id));
            assert(path_text(v) =~= s);
        } else {
            let s4 = spec_find(s, '/', s3 + 1);
            lemma_find_facts(s, '/', s3 + 1);
            let s5 = spec_find(s, '/', s4 + 1);
            lemma_find_facts(s, '/', s4 + 1);
            assert(valid_component(v.resource_id));
            assert(valid_component(v.service_type));
            assert(valid_component(v.service_id));
            assert(path_text(v) =~= s);
        }
    }
}

/// Rendering and parsing round-trip, the other way: the rendering of any
/// well-formed address parses back to that address. Together with
/// `lemma_parse_round_trip` this makes the textual form a faithful code for
/// addresses.
pub proof fn lemma_format_round_trip(v: PathView)
    requires
        wellformed(v),
    ensures
        spec_parse(path_text(v)) == Some(v),
{
    let t = path_text(v);
    let n = t.len() as int;
    let lr = v.region_id.len() as int;
    let lc = v.cluster_id.len() as int;
    let ln = v.node_id.len() as int;
    let base_len = lr + 1 + lc + 1 + ln;
    assert forall|j: int| 0 <= j < lr implies t[j] != '.' && t[j] != '/' by {
        assert(t[j] == v.region_id[j]);
    }
    assert(t[lr] == '.');
    assert forall|j: int| lr + 1 <= j < lr + 1 + lc implies t[j] != '.' && t[j] != '/' by {
        assert(t[j] == v.cluster_id[j - (lr + 1)]);
    }
    assert(t[lr + 1 + lc] == '.');
    assert forall|j: int| lr + 1 + lc + 1 <= j < base_len implies t[j] != '/' by {
        assert(t[j] == v.node_id[j - (lr + 1 + lc + 1)]);
    }
    lemma_find_characterisation(t, '.', 0, lr);
    lemma_find_characterisation(t, '.', lr + 1, lr + 1 + lc);
    assert(t.subrange(0, lr) =~= v.region_id);
    assert(t.subrange(lr + 1, lr + 1 + lc) =~= v.cluster_id);
    if !has_resource(v) {
        lemma_find_characterisation(t, '/', 0, n);
        assert(t.subrange(lr + 1 + lc + 1, n) =~= v.node_id);
        assert(v.resource_type =~= Seq::<char>::empty());
        assert(v.resource_id =~= Seq::<char>::empty());
        assert(v.service_type =~= Seq::<char>::empty());
        assert(v.service_id =~= Seq::<char>::empty());
        assert(spec_parse(t) == Some(v));
    } else {
        let lrt = v.resource_type.len() as int;
        let lrid = v.resource_id.len() as int;
        assert(t[base_len] == '/');
        lemma_find_characterisation(t, '/', 0, base_len);
        assert(t.subrange(lr + 1 + lc + 1, base_len) =~= v.node_id);
        assert forall|j: int| base_len + 1 <= j < base_len + 1 + lrt implies t[j] != '/' by {
            assert(t[j] == v.resource_type[j - (base_len + 1)]);
        }
        assert(t[base_len + 1 + lrt] == '/');
        lemma_find_characterisation(t, '/', base_len + 1, base_len + 1 + lrt);
        assert(t.subrange(base_len + 1, base_len + 1 + lrt) =~= v.resource_type);
        let rid_start = base_len + 1 + lrt + 1;
        assert forall|j: int| rid_start <= j < rid_start + lrid implies t[j] != '/' by {
            assert(t[j] == v.resource_id[j - rid_start]);
        }
        if !has_service(v) {
            lemma_find_characterisation(t, '/', rid_start, n);
            assert(t.subrange(rid_start, n) =~= v.resource_id);
            assert(v.service_type =~= Seq::<char>::empty());
            assert(v.service_id =~= Seq::<char>::empty());
            assert(spec_parse(t) == Some(v));
        } else {
            let lst = v.service_type.len() as int;
            let lsid = v.service_id.len() as int;
            let st_start = rid_start + lrid + 1;
            let sid_start = st_start + lst + 1;
            assert(t[rid_start + lrid] == '/');
            lemma_find_characterisation(t, '/', rid_start, rid_start + lrid);
            assert(t.subrange(rid_start, rid_start + lrid) =~= v.resource_id);
            assert forall|j: int| st_start <= j < st_start + lst implies t[j] != '/' by {
                assert(t[j] == v.service_type[j - st_start]);
            }
            assert(t[st_start + lst] == '/');
            lemma_find_characterisation(t, '/', st_start, st_start + lst);
            assert(t.subrange(st_start, st_start + lst) =~= v.service_type);
            assert forall|j: int| sid_start <= j < n implies t[j] != '/' by {
                assert(t[j] == v.service_id[j - sid_start]);
            }
            lemma_find_characterisation(t, '/', sid_start, n);
            assert(t.subrange(sid_start, n) =~= v.service_id);
            assert(spec_parse(t) == Some(v));
        }
    }
}

/// First position of `c` in `s` at or after `from`, or the length of `s`.
fn find_char(s: &str, c: char, from: usize) -> (r: usize)
    requires
        from <= s@.len(),
    ensures
        r as int == spec_find(s@, c, from as int),
        from <= r <= s@.len(),
        r < s@.len() ==> s@[r as int] == c,
        forall|j: int| from <= j < r ==> s@[j] != c,
{
    let n = s.unicode_len();
    let mut i: usize = from;
    while i < n
        invariant
            from <= i <= n,
            n == s@.len(),
            forall|j: int| from <= j < i ==> s@[j] != c,
        decreases n - i,
    {
        if s.get_char(i) == c {
            proof {
                lemma_find_characterisation(s@, c, from as int, i as int);
            }
            return i;
        }
        i = i + 1;
    }
    proof {
        lemma_find_characterisation(s@, c, from as int, n as int);
    }
    n
}

impl ServicePath {
    /// Parse an address from its textual form. Accepts exactly the texts that
    /// `spec_parse` accepts: three dot-separated geographic levels, then an
    /// optional resource pair and an optional service pair, slash-separated,
    /// every component non-empty.
    pub fn from_string(s: &str) -> (r: Result<ServicePath, SwbusError>)
        ensures
            match r {
                Ok(sp) => spec_parse(s@) == Some(sp@),
                Err(e) => spec_parse(s@) is None && e is Input && crate::result::error_code_of(e)
                    == SwbusErrorCode::InvalidArgs,
            },
    {
        let n = s.unicode_len();
        let d1 = find_char(s, '.', 0);
        if d1 == n {
            return Err(SwbusError::input(
                SwbusErrorCode::InvalidArgs,
                String::from_str("invalid service path"),
            ));
        }
        let d2 = find_char(s, '.', d1 + 1);
        let sl = find_char(s, '/', 0);
        if d2 == n || sl <= d2 {
            return Err(SwbusError::input(
                SwbusErrorCode::InvalidArgs,
                String::from_str("invalid service path"),
            ));
        }
        let region_id = String::from_str(s.substring_char(0, d1));
        let cluster_id = String::from_str(s.substring_char(d1 + 1, d2));
        let node_id = String::from_str(s.substring_char(d2 + 1, sl));
        if region_id.as_str().is_empty() || cluster_id.as_str().is_empty()
            || node_id.as_str().is_empty() {
            return Err(SwbusError::input(
                SwbusErrorCode::InvalidArgs,
                String::from_str("invalid service path"),
            ));
        }
        if sl == n {
            return Ok(ServicePath {
                region_id,
                cluster_id,
                node_id,
                resource_type: String::new(),
                resource_id: String::new(),
                service_type: String::new(),
                service_id: String::new(),
            });
        }
        let s2 = find_char(s, '/', sl + 1);
        if s2 == n {
            return Err(SwbusError::input(
                SwbusErrorCode::InvalidArgs,
                String::from_str("invalid service path"),
            ));
        }
        let resource_type = String::from_str(s.substring_char(sl + 1, s2));
        if resource_type.as_str().is_empty() {
            return Err(SwbusError::input(
                SwbusErrorCode::InvalidArgs,
                String::from_str("invalid service path"),
            ));
        }
        let s3 = find_char(s, '/', s2 + 1);
        if s3 == n {
            let resource_id = String::from_str(s.substring_char(s2 + 1, n));
            if resource_id.as_str().is_empty() {
                return Err(SwbusError::input(
                    SwbusErrorCode::InvalidArgs,
                    String::from_str("invalid service path"),
                ));
            }
            return Ok(ServicePath {
                region_id,
                cluster_id,
                node_id,
                resource_type,
                resource_id,
                service_type: String::new(),
                service_id: String::new(),
            });
        }
        let resource_id = String::from_str(s.substring_char(s2 + 1, s3));
        let s4 = find_char(s, '/', s3 + 1);
        if resource_id.as_str().is_empty() || s4 == n {
            return Err(SwbusError::input(
                SwbusErrorCode::InvalidArgs,
                String::from_str("invalid service path"),
            ));
        }
        let service_type = String::from_str(s.substring_char(s3 + 1, s4));
        let s5 = find_char(s, '/', s4 + 1);
        let service_id = String::from_str(s.substring_char(s4 + 1, n));
        if service_type.as_str().is_empty() || s5 != n || service_id.as_str().is_empty() {
            return Err(SwbusError::input(
                SwbusErrorCode::InvalidArgs,
                String::from_str("invalid service path"),
            ));
        }
        Ok(ServicePath {
            region_id,
            cluster_id,
            node_id,
            resource_type,
            resource_id,
            service_type,
            service_id,
        })
    }

    /// Render the address textually: `region.cluster.node`, then the resource
    /// pair and the service pair where present.
    pub fn to_path_string(&self) -> (r: String)
        ensures
            r@ == path_text(self@),
    {
        proof {
            reveal_strlit(".");
            reveal_strlit("/");
        }
        let mut out = String::new();
        out.append(self.region_id.as_str());
        out.append(".");
        out.append(self.cluster_id.as_str());
        out.append(".");
        out.append(self.node_id.as_str());
        proof {
            assert(out@ =~= self@.region_id + seq!['.'] + self@.cluster_id + seq!['.']
                + self@.node_id);
        }
        if !(self.resource_type.as_str().is_empty() && self.resource_id.as_str().is_empty()) {
            out.append("/");
            out.append(self.resource_type.as_str());
            out.append("/");
            out.append(self.resource_id.as_str());
            if !(self.service_type.as_str().is_empty() && self.service_id.as_str().is_empty()) {
                out.append("/");
                out.append(self.service_type.as_str());
                out.append("/");
                out.append(self.service_id.as_str());
                proof {
                    assert(out@ =~= path_text(self@));
                }
            } else {
                proof {
                    assert(out@ =~= path_text(self@));
                }
            }
        } else {
            proof {
                assert(out@ =~= path_text(self@));
            }
        }
        out
    }
}

impl Clone for ServicePath {
    fn clone(&self) -> (r: Self)
        ensures
            r == *self,
    {
        ServicePath {
            region_id: self.region_id.clone(),
            cluster_id: self.cluster_id.clone(),
            node_id: self.node_id.clone(),
            resource_type: self.resource_type.clone(),
            resource_id: self.resource_id.clone(),
            service_type: self.service_type.clone(),
            service_id: self.service_id.clone(),
        }
    }
}

} // verus!
