//! Connection descriptors, the clonable proxy handle that identifies a
//! connection's bounded send queue, and the queue itself.
//!
//! A connection's reader and writer belong to the process edge around the
//! library; the core sees a connection as its immutable descriptor plus a
//! bounded queue of outbound messages, owned by the multiplexer and addressed
//! through a proxy handle. Proxy copies share the queue they index.

use crate::message::SwbusMessage;
use crate::service_path::{path_eq, PathView, ServicePath};
use vstd::prelude::*;
use vstd::string::StringExecFns;

verus! {

/// The scope of a connection: how far the peer sits from this daemon.
#[derive(Clone, Copy, PartialEq, Eq, Structural, Debug)]
pub enum ConnectionType {
    Client,
    Node,
    Cluster,
    Region,
    Global,
}

/// The textual name of a connection scope, as `SwbusConnInfo::id` renders it.
pub open spec fn conn_type_text(t: ConnectionType) -> Seq<char> {
    match t {
        ConnectionType::Client => "client"@,
        ConnectionType::Node => "node"@,
        ConnectionType::Cluster => "cluster"@,
        ConnectionType::Region => "region"@,
        ConnectionType::Global => "global"@,
    }
}

impl ConnectionType {
    /// The textual name of this scope.
    pub fn scope_name(self) -> (r: &'static str)
        ensures
            r@ == conn_type_text(self),
    {
        match self {
            ConnectionType::Client => "client",
            ConnectionType::Node => "node",
            ConnectionType::Cluster => "cluster",
            ConnectionType::Region => "region",
            ConnectionType::Global => "global",
        }
    }
}

/// The immutable descriptor of a connection: its scope, the remote socket
/// address in textual form, and the two endpoint addresses.
pub struct SwbusConnInfo {
    pub conn_type: ConnectionType,
    pub remote_addr: String,
    pub remote_service_path: ServicePath,
    pub local_service_path: ServicePath,
}

/// The mathematical value of a connection descriptor.
pub struct ConnInfoView {
    pub conn_type: ConnectionType,
    pub remote_addr: Seq<char>,
    pub remote_service_path: PathView,
    pub local_service_path: PathView,
}

impl View for SwbusConnInfo {
    type V = ConnInfoView;

    open spec fn view(&self) -> ConnInfoView {
        ConnInfoView {
            conn_type: self.conn_type,
            remote_addr: self.remote_addr@,
            remote_service_path: self.remote_service_path@,
            local_service_path: self.local_service_path@,
        }
    }
}

/// The textual identity of a connection: its scope name and remote address.
pub open spec fn conn_id_text(c: ConnInfoView) -> Seq<char> {
    conn_type_text(c.conn_type) + seq!['-'] + c.remote_addr
}

/// Componentwise equality of two connection descriptors.
pub open spec fn conn_info_eq(a: ConnInfoView, b: ConnInfoView) -> bool {
    &&& a.conn_type == b.conn_type
    &&& a.remote_addr == b.remote_addr
    &&& path_eq(a.remote_service_path, b.remote_service_path)
    &&& path_eq(a.local_service_path, b.local_service_path)
}

impl SwbusConnInfo {
    /// A descriptor for a client-initiated connection.
    pub fn new_client(
        conn_type: ConnectionType,
        remote_addr: String,
        remote_service_path: ServicePath,
        local_service_path: ServicePath,
    ) -> (r: SwbusConnInfo)
        ensures
            r.conn_type == conn_type,
            r.remote_addr == remote_addr,
            r.remote_service_path == remote_service_path,
            r.local_service_path == local_service_path,
    {
        SwbusConnInfo { conn_type, remote_addr, remote_service_path, local_service_path }
    }

    /// The textual identity of the connection: its scope and remote address.
    pub fn id(&self) -> (r: String)
        ensures
            r@ == conn_id_text(self@),
    {
        proof {
            reveal_strlit("-");
        }
        let mut out = String::new();
        out.append(self.conn_type.scope_name());
        out.append("-");
        out.append(self.remote_addr.as_str());
        proof {
            assert(out@ =~= conn_id_text(self@));
        }
        out
    }

    /// Componentwise equality test.
    pub fn eq_info(&self, other: &SwbusConnInfo) -> (r: bool)
        ensures
            r == conn_info_eq(self@, other@),
    {
        self.conn_type == other.conn_type && self.remote_addr == other.remote_addr
            && self.remote_service_path.eq_path(&other.remote_service_path)
            && self.local_service_path.eq_path(&other.local_service_path)
    }
}

impl Clone for SwbusConnInfo {
    fn clone(&self) -> (r: Self)
        ensures
            r == *self,
    {
        SwbusConnInfo {
            conn_type: self.conn_type,
            remote_addr: self.remote_addr.clone(),
            remote_service_path: self.remote_service_path.clone(),
            local_service_path: self.local_service_path.clone(),
        }
    }
}

/// A handle on a connection's send queue. Copies of a proxy address the same
/// queue: the handle is the queue's index in the multiplexer's queue pool.
#[derive(Clone, Copy, PartialEq, Eq, Structural, Debug)]
pub struct SwbusConnProxy {
    pub queue_index: usize,
}

/// A connection's bounded outbound queue, drained by the process edge.
/// `try_queue` on the owning multiplexer refuses a message once `messages`
/// holds `capacity` entries.
pub struct ConnectionQueue {
    pub info: SwbusConnInfo,
    pub messages: Vec<SwbusMessage>,
    pub capacity: usize,
}

} // verus!
