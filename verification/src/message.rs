//! The bus envelope: message header, body variants, response construction,
//! and the per-process message-id generator.

use crate::result::{code_wire_value, SwbusErrorCode};
use crate::service_path::{path_eq, ServicePath};
use vstd::prelude::*;
use vstd::string::StringExecFns;

verus! {

/// Default time-to-live stamped on new message headers.
pub const SWBUS_MESSAGE_TTL_DEFAULT: u32 = 63;

/// Wire protocol version stamped on new message headers.
pub const SWBUS_PROTO_VERSION: u32 = 1;

/// A strictly increasing per-process id counter: consecutive calls to
/// `generate` return consecutive values with no gaps.
pub struct MessageIdGenerator {
    pub counter: u64,
}

impl MessageIdGenerator {
    /// A fresh generator; its first id is 1.
    pub fn new() -> (r: MessageIdGenerator)
        ensures
            r.counter == 0,
    {
        MessageIdGenerator { counter: 0 }
    }

    /// The next id: one more than every id handed out before.
    pub fn generate(&mut self) -> (r: u64)
        requires
            old(self).counter < u64::MAX,
        ensures
            r == old(self).counter + 1,
            final(self).counter == r,
    {
        self.counter = self.counter + 1;
        self.counter
    }
}

/// An application payload carried to a handler.
pub struct DataRequest {
    pub payload: Vec<u8>,
}

/// A liveness probe; the terminus answers with an `Okay` response.
pub struct PingRequest {}

/// A route probe; the terminus only acknowledges.
pub struct TraceRouteRequest {}

/// One named argument of a management request.
pub struct ManagementRequestArg {
    pub name: String,
    pub value: String,
}

/// A management request with its wire-encoded type and named arguments.
pub struct ManagementRequest {
    pub request: i32,
    pub arguments: Vec<ManagementRequestArg>,
}

/// The decoded type of a management request. `SwbusdGetRoutes` asks for a
/// route-table snapshot; all other wire values are reserved.
#[derive(Clone, Copy, PartialEq, Eq, Structural, Debug)]
pub enum ManagementRequestType {
    SwbusdGetRoutes,
}

/// Wire value of each management request type.
pub open spec fn mgmt_type_wire_value(t: ManagementRequestType) -> i32 {
    match t {
        ManagementRequestType::SwbusdGetRoutes => 0,
    }
}

/// Decoding of a management request wire value; `None` outside the
/// enumeration.
pub open spec fn wire_to_mgmt_type(value: i32) -> Option<ManagementRequestType> {
    if value == 0 {
        Some(ManagementRequestType::SwbusdGetRoutes)
    } else {
        None
    }
}

impl ManagementRequestType {
    /// The wire value of this request type.
    pub fn to_wire(self) -> (r: i32)
        ensures
            r == mgmt_type_wire_value(self),
    {
        match self {
            ManagementRequestType::SwbusdGetRoutes => 0,
        }
    }

    /// Decode a wire value; an unknown value yields `None`.
    pub fn from_wire(value: i32) -> (r: Option<ManagementRequestType>)
        ensures
            r == wire_to_mgmt_type(value),
    {
        if value == 0 {
            Some(ManagementRequestType::SwbusdGetRoutes)
        } else {
            None
        }
    }
}

/// The kind of next hop a route-table entry points at.
#[derive(Clone, Copy, PartialEq, Eq, Structural, Debug)]
pub enum NextHopType {
    Local,
    Remote,
}

/// One row of a route-table snapshot: the route key, the kind of next hop,
/// its advertised distance, the scope the route was announced at, and the
/// remote endpoint for remote hops.
pub struct RouteQueryResultEntry {
    pub service_path: ServicePath,
    pub hop_count: u32,
    pub nh_type: NextHopType,
    pub nh_scope: crate::multiplexer::RouteScope,
    pub nh_id: String,
}

/// A route-table snapshot, carried in a response body.
pub struct RouteQueryResult {
    pub entries: Vec<RouteQueryResultEntry>,
}

/// An opaque management query result, carried in a response body.
pub struct ManagementQueryResult {
    pub value: String,
}

/// The structured payload a response can carry.
pub enum ResponseBody {
    RouteQueryResult(RouteQueryResult),
    ManagementQueryResult(ManagementQueryResult),
}

/// The response to a request: the correlated request id, an error code in
/// wire form, a message, and an optional structured payload.
pub struct RequestResponse {
    pub request_id: u64,
    pub error_code: i32,
    pub error_message: String,
    pub response_body: Option<ResponseBody>,
}

impl RequestResponse {
    /// A success response correlated with `request_id`.
    pub fn ok(request_id: u64) -> (r: RequestResponse)
        ensures
            r.request_id == request_id,
            r.error_code == code_wire_value(SwbusErrorCode::Okay),
            r.error_message@.len() == 0,
            r.response_body is None,
    {
        RequestResponse {
            request_id,
            error_code: SwbusErrorCode::Okay.to_wire(),
            error_message: String::new(),
            response_body: None,
        }
    }

    /// An infrastructure error response correlated with `request_id`.
    pub fn infra_error(request_id: u64, error_code: SwbusErrorCode, error_message: &str) -> (r:
        RequestResponse)
        ensures
            r.request_id == request_id,
            r.error_code == code_wire_value(error_code),
            r.error_message@ == error_message@,
            r.response_body is None,
    {
        RequestResponse {
            request_id,
            error_code: error_code.to_wire(),
            error_message: String::from_str(error_message),
            response_body: None,
        }
    }
}

/// The tagged union of message bodies.
pub enum Body {
    DataRequest(DataRequest),
    Response(RequestResponse),
    PingRequest(PingRequest),
    TraceRouteRequest(TraceRouteRequest),
    ManagementRequest(ManagementRequest),
}

/// The envelope header: protocol version, message id, flag bitset, remaining
/// hops, and the source and destination addresses.
pub struct SwbusMessageHeader {
    pub version: u32,
    pub id: u64,
    pub flag: u32,
    pub ttl: u32,
    pub source: ServicePath,
    pub destination: ServicePath,
}

impl SwbusMessageHeader {
    /// A header for a fresh message: current protocol version, no flags, and
    /// the default TTL.
    pub fn new(source: ServicePath, destination: ServicePath, id: u64) -> (r: SwbusMessageHeader)
        ensures
            r.version == SWBUS_PROTO_VERSION,
            r.id == id,
            r.flag == 0,
            r.ttl == SWBUS_MESSAGE_TTL_DEFAULT,
            r.source == source,
            r.destination == destination,
    {
        SwbusMessageHeader {
            version: SWBUS_PROTO_VERSION,
            id,
            flag: 0,
            ttl: SWBUS_MESSAGE_TTL_DEFAULT,
            source,
            destination,
        }
    }
}

/// A complete envelope: header and body.
pub struct SwbusMessage {
    pub header: SwbusMessageHeader,
    pub body: Body,
}

/// What `SwbusMessage::new_response` promises of its result, relative to the
/// request it answers: the response goes back to the request's source, is
/// stamped with `new_id` and the default TTL, correlates with the request's
/// id, and carries the given code and text.
pub open spec fn is_response_to(
    r: SwbusMessage,
    request_header: SwbusMessageHeader,
    responder_source: PathViewChoice,
    error_code: SwbusErrorCode,
    new_id: int,
) -> bool {
    &&& r.header.version == SWBUS_PROTO_VERSION
    &&& r.header.id == new_id
    &&& r.header.flag == 0
    &&& r.header.ttl == SWBUS_MESSAGE_TTL_DEFAULT
    &&& path_eq(
        r.header.source@,
        match responder_source {
            PathViewChoice::Given(v) => v,
            PathViewChoice::RequestDestination => request_header.destination@,
        },
    )
    &&& path_eq(r.header.destination@, request_header.source@)
    &&& r.body is Response
    &&& r.body->Response_0.request_id == request_header.id
    &&& r.body->Response_0.error_code == code_wire_value(error_code)
}

/// The source address a response is stamped with: one given by the responder,
/// or the request's destination.
pub enum PathViewChoice {
    Given(crate::service_path::PathView),
    RequestDestination,
}

/// The message as a remote hop forwards it: one hop spent, all else intact.
pub open spec fn decrement_ttl(m: SwbusMessage) -> SwbusMessage {
    SwbusMessage {
        header: SwbusMessageHeader { ttl: (m.header.ttl - 1) as u32, ..m.header },
        body: m.body,
    }
}

impl SwbusMessage {
    /// An envelope from a header and a body.
    pub fn new(header: SwbusMessageHeader, body: Body) -> (r: SwbusMessage)
        ensures
            r.header == header,
            r.body == body,
    {
        SwbusMessage { header, body }
    }

    /// Build the response to `request`: source is `responder_sp` when given,
    /// else the request's destination; destination is the request's source;
    /// the body correlates with the request's id and carries the given error
    /// code, text and optional payload; TTL is reset to the default.
    pub fn new_response(
        request: &SwbusMessage,
        responder_sp: Option<&ServicePath>,
        error_code: SwbusErrorCode,
        error_message: &str,
        new_id: u64,
        response_body: Option<ResponseBody>,
    ) -> (r: SwbusMessage)
        ensures
            is_response_to(
                r,
                request.header,
                match responder_sp {
                    Some(sp) => PathViewChoice::Given(sp@),
                    None => PathViewChoice::RequestDestination,
                },
                error_code,
                new_id as int,
            ),
            r.body->Response_0.error_message@ == error_message@,
            r.body->Response_0.response_body == response_body,
    {
        let source = match responder_sp {
            Some(sp) => sp.clone(),
            None => request.header.destination.clone(),
        };
        let destination = request.header.source.clone();
        SwbusMessage {
            header: SwbusMessageHeader::new(source, destination, new_id),
            body: Body::Response(
                RequestResponse {
                    request_id: request.header.id,
                    error_code: error_code.to_wire(),
                    error_message: String::from_str(error_message),
                    response_body,
                },
            ),
        }
    }
}

} // verus!
