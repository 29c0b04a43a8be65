//! What the driver knows of one server, as a server selector sees it.

use crate::bson::BsonT;
use crate::string::StringViewT;
use mongodb::ServerType;
use vstd::prelude::*;
use vstd::std_specs::convert::FromSpecImpl;

verus! {

#[allow(non_camel_case_types)]
pub type mongoac_server_type_t = i32;

pub const MONGOAC_SERVER_TYPE_UNKNOWN: mongoac_server_type_t = 0;

pub const MONGOAC_SERVER_TYPE_STANDALONE: mongoac_server_type_t = 1;

pub const MONGOAC_SERVER_TYPE_MONGOS: mongoac_server_type_t = 2;

pub const MONGOAC_SERVER_TYPE_RS_PRIMARY: mongoac_server_type_t = 3;

pub const MONGOAC_SERVER_TYPE_RS_SECONDARY: mongoac_server_type_t = 4;

pub const MONGOAC_SERVER_TYPE_RS_ARBITER: mongoac_server_type_t = 5;

pub const MONGOAC_SERVER_TYPE_RS_OTHER: mongoac_server_type_t = 6;

pub const MONGOAC_SERVER_TYPE_RS_GHOST: mongoac_server_type_t = 7;

pub const MONGOAC_SERVER_TYPE_LOAD_BALANCER: mongoac_server_type_t = 8;

/// The port a TCP address without one means (the driver's default port).
pub const DEFAULT_PORT: u16 = 27017;

/// A server type; other values are carried as `Unused`.
#[derive(Debug, Clone, Copy, PartialEq, Eq, Structural)]
pub enum ServerTypeT {
    Unknown,
    Standalone,
    Mongos,
    RsPrimary,
    RsSecondary,
    RsArbiter,
    RsOther,
    RsGhost,
    LoadBalancer,
    Unused(i32),
}

/// The server type that an integer names.
pub open spec fn server_type_from_i32(v: i32) -> ServerTypeT {
    if v == 0 {
        ServerTypeT::Unknown
    } else if v == 1 {
        ServerTypeT::Standalone
    } else if v == 2 {
        ServerTypeT::Mongos
    } else if v == 3 {
        ServerTypeT::RsPrimary
    } else if v == 4 {
        ServerTypeT::RsSecondary
    } else if v == 5 {
        ServerTypeT::RsArbiter
    } else if v == 6 {
        ServerTypeT::RsOther
    } else if v == 7 {
        ServerTypeT::RsGhost
    } else if v == 8 {
        ServerTypeT::LoadBalancer
    } else {
        ServerTypeT::Unused(v)
    }
}

/// The integer that a server type stands for.
pub open spec fn server_type_to_i32(t: ServerTypeT) -> i32 {
    match t {
        ServerTypeT::Unknown => 0,
        ServerTypeT::Standalone => 1,
        ServerTypeT::Mongos => 2,
        ServerTypeT::RsPrimary => 3,
        ServerTypeT::RsSecondary => 4,
        ServerTypeT::RsArbiter => 5,
        ServerTypeT::RsOther => 6,
        ServerTypeT::RsGhost => 7,
        ServerTypeT::LoadBalancer => 8,
        ServerTypeT::Unused(v) => v,
    }
}

impl From<i32> for ServerTypeT {
    fn from(v: i32) -> (r: Self) {
        if v == MONGOAC_SERVER_TYPE_UNKNOWN {
            ServerTypeT::Unknown
        } else if v == MONGOAC_SERVER_TYPE_STANDALONE {
            ServerTypeT::Standalone
        } else if v == MONGOAC_SERVER_TYPE_MONGOS {
            ServerTypeT::Mongos
        } else if v == MONGOAC_SERVER_TYPE_RS_PRIMARY {
            ServerTypeT::RsPrimary
        } else if v == MONGOAC_SERVER_TYPE_RS_SECONDARY {
            ServerTypeT::RsSecondary
        } else if v == MONGOAC_SERVER_TYPE_RS_ARBITER {
            ServerTypeT::RsArbiter
        } else if v == MONGOAC_SERVER_TYPE_RS_OTHER {
            ServerTypeT::RsOther
        } else if v == MONGOAC_SERVER_TYPE_RS_GHOST {
            ServerTypeT::RsGhost
        } else if v == MONGOAC_SERVER_TYPE_LOAD_BALANCER {
            ServerTypeT::LoadBalancer
        } else {
            ServerTypeT::Unused(v)
        }
    }
}

impl FromSpecImpl<i32> for ServerTypeT {
    open spec fn obeys_from_spec() -> bool {
        true
    }

    open spec fn from_spec(v: i32) -> Self {
        server_type_from_i32(v)
    }
}

impl From<ServerTypeT> for i32 {
    fn from(t: ServerTypeT) -> (r: i32) {
        match t {
            ServerTypeT::Unknown => MONGOAC_SERVER_TYPE_UNKNOWN,
            ServerTypeT::Standalone => MONGOAC_SERVER_TYPE_STANDALONE,
            ServerTypeT::Mongos => MONGOAC_SERVER_TYPE_MONGOS,
            ServerTypeT::RsPrimary => MONGOAC_SERVER_TYPE_RS_PRIMARY,
            ServerTypeT::RsSecondary => MONGOAC_SERVER_TYPE_RS_SECONDARY,
            ServerTypeT::RsArbiter => MONGOAC_SERVER_TYPE_RS_ARBITER,
            ServerTypeT::RsOther => MONGOAC_SERVER_TYPE_RS_OTHER,
            ServerTypeT::RsGhost => MONGOAC_SERVER_TYPE_RS_GHOST,
            ServerTypeT::LoadBalancer => MONGOAC_SERVER_TYPE_LOAD_BALANCER,
            ServerTypeT::Unused(v) => v,
        }
    }
}

impl FromSpecImpl<ServerTypeT> for i32 {
    open spec fn obeys_from_spec() -> bool {
        true
    }

    open spec fn from_spec(t: ServerTypeT) -> i32 {
        server_type_to_i32(t)
    }
}

#[verifier::external_type_specification]
#[verifier::external_body]
pub struct ExServerType(ServerType);

/// The C API's name for a driver server type: the variant of the same name, or
/// `Unknown` for one the C API does not name.
pub uninterp spec fn server_type_named(t: ServerType) -> ServerTypeT;

/// Names the driver's server type with the C API's, one variant for each of the
/// driver's; a type that the C API does not name (the driver's enum may grow)
/// reads as `Unknown`. The driver's value is opaque here, so which variant comes
/// back is only named.
#[verifier::external_body]
fn driver_server_type(t: ServerType) -> (r: ServerTypeT)
    ensures
        r == server_type_named(t),
        !(r is Unused),
{
    match t {
        ServerType::Standalone => ServerTypeT::Standalone,
        ServerType::Mongos => ServerTypeT::Mongos,
        ServerType::RsPrimary => ServerTypeT::RsPrimary,
        ServerType::RsSecondary => ServerTypeT::RsSecondary,
        ServerType::RsArbiter => ServerTypeT::RsArbiter,
        ServerType::RsOther => ServerTypeT::RsOther,
        ServerType::RsGhost => ServerTypeT::RsGhost,
        ServerType::LoadBalancer => ServerTypeT::LoadBalancer,
        _ => ServerTypeT::Unknown,
    }
}

/// The C API's name for the driver's server type; never a number the C API
/// does not name.
pub fn server_type_from_driver(t: ServerType) -> (r: ServerTypeT)
    ensures
        r == server_type_named(t),
        !(r is Unused),
{
    driver_server_type(t)
}

/// The address of a server.
#[derive(Debug)]
pub enum ServerAddressT {
    Tcp { host: String, port: Option<u16> },
    Unix { path: Vec<u8> },
}

impl ServerAddressT {
    /// A copy of the address.
    pub fn duplicate(&self) -> (r: Self)
        ensures
            r.same_as(self),
    {
        match self {
            ServerAddressT::Tcp { host, port } => ServerAddressT::Tcp { host: host.clone(), port: *port },
            ServerAddressT::Unix { path } => ServerAddressT::Unix { path: path.clone() },
        }
    }

    /// Whether two addresses are the same.
    pub open spec fn same_as(&self, other: &Self) -> bool {
        match (*self, *other) {
            (ServerAddressT::Tcp { host: h1, port: p1 }, ServerAddressT::Tcp { host: h2, port: p2 }) => h1@
                == h2@ && p1 == p2,
            (ServerAddressT::Unix { path: a }, ServerAddressT::Unix { path: b }) => a@ == b@,
            _ => false,
        }
    }
}

/// A description of one server.
#[derive(Debug)]
pub struct ServerInfoT {
    pub server_type: ServerTypeT,
    pub address: ServerAddressT,
    /// The average round trip time, as whole seconds and the nanoseconds beyond them.
    pub average_round_trip_time: Option<(u64, u32)>,
    /// The last update time, in milliseconds since the Unix epoch.
    pub last_update_time_ms: Option<i64>,
    pub max_wire_version: Option<i32>,
    pub min_wire_version: Option<i32>,
    pub replica_set_name: Option<String>,
    pub replica_set_version: Option<i32>,
    /// The server's tags, as a BSON document.
    pub tags: Option<Vec<u8>>,
    pub has_error: bool,
}

/// The server's type, as its C number.
pub fn mongoac_server_info_get_type(info: &ServerInfoT) -> (r: mongoac_server_type_t)
    ensures
        r == server_type_to_i32(info.server_type),
{
    i32::from(info.server_type)
}

/// The server's host: the TCP host name, or the Unix socket path.
pub fn mongoac_server_info_get_host(info: &ServerInfoT) -> (r: StringViewT)
    ensures
        r.data matches Some(b) && match info.address {
            ServerAddressT::Tcp { host, .. } => vstd::utf8::decode_utf8(b@) == host@,
            ServerAddressT::Unix { path } => b@ == path@,
        },
{
    match &info.address {
        ServerAddressT::Tcp { host, .. } => {
            let v = StringViewT::from_str(host.as_str());
            proof {
                vstd::utf8::encode_utf8_decode_utf8(host@);
            }
            v
        },
        ServerAddressT::Unix { path } => StringViewT { data: Some(path.clone()) },
    }
}

/// The server's port: the TCP port, the default port when the address has none,
/// and 0 for a Unix socket.
pub fn mongoac_server_info_get_port(info: &ServerInfoT) -> (r: u16)
    ensures
        r == match info.address {
            ServerAddressT::Tcp { port: Some(p), .. } => p,
            ServerAddressT::Tcp { port: None, .. } => DEFAULT_PORT,
            ServerAddressT::Unix { .. } => 0u16,
        },
{
    match &info.address {
        ServerAddressT::Tcp { port, .. } => match port {
            Some(p) => *p,
            None => DEFAULT_PORT,
        },
        ServerAddressT::Unix { .. } => 0,
    }
}

/// The whole seconds of the average round trip time; 0 when unknown.
pub fn mongoac_server_info_get_average_round_trip_time_secs(info: &ServerInfoT) -> (r: u64)
    ensures
        r == match info.average_round_trip_time {
            Some(t) => t.0,
            None => 0u64,
        },
{
    match info.average_round_trip_time {
        Some(t) => t.0,
        None => 0,
    }
}

/// The nanoseconds beyond the whole seconds of the average round trip time; 0
/// when unknown.
pub fn mongoac_server_info_get_average_round_trip_time_nanos(info: &ServerInfoT) -> (r: u32)
    ensures
        r == match info.average_round_trip_time {
            Some(t) => t.1,
            None => 0u32,
        },
{
    match info.average_round_trip_time {
        Some(t) => t.1,
        None => 0,
    }
}

/// Whether the average round trip time is known.
pub fn mongoac_server_info_average_round_trip_time_has_value(info: &ServerInfoT) -> (r: bool)
    ensures
        r == info.average_round_trip_time is Some,
{
    info.average_round_trip_time.is_some()
}

/// The last update time in milliseconds since the Unix epoch; 0 when unknown.
pub fn mongoac_server_info_get_last_update_time(info: &ServerInfoT) -> (r: i64)
    ensures
        r == match info.last_update_time_ms {
            Some(t) => t,
            None => 0i64,
        },
{
    match info.last_update_time_ms {
        Some(t) => t,
        None => 0,
    }
}

/// Whether the last update time is known.
pub fn mongoac_server_info_last_update_time_has_value(info: &ServerInfoT) -> (r: bool)
    ensures
        r == info.last_update_time_ms is Some,
{
    info.last_update_time_ms.is_some()
}

/// The maximum wire version; 0 when unknown.
pub fn mongoac_server_info_get_max_wire_version(info: &ServerInfoT) -> (r: i32)
    ensures
        r == match info.max_wire_version {
            Some(v) => v,
            None => 0i32,
        },
{
    match info.max_wire_version {
        Some(v) => v,
        None => 0,
    }
}

/// Whether the maximum wire version is known.
pub fn mongoac_server_info_max_wire_version_has_value(info: &ServerInfoT) -> (r: bool)
    ensures
        r == info.max_wire_version is Some,
{
    info.max_wire_version.is_some()
}

/// The minimum wire version; 0 when unknown.
pub fn mongoac_server_info_get_min_wire_version(info: &ServerInfoT) -> (r: i32)
    ensures
        r == match info.min_wire_version {
            Some(v) => v,
            None => 0i32,
        },
{
    match info.min_wire_version {
        Some(v) => v,
        None => 0,
    }
}

/// Whether the minimum wire version is known.
pub fn mongoac_server_info_min_wire_version_has_value(info: &ServerInfoT) -> (r: bool)
    ensures
        r == info.min_wire_version is Some,
{
    info.min_wire_version.is_some()
}

/// The replica set name; a null view when unknown.
pub fn mongoac_server_info_get_replica_set_name(info: &ServerInfoT) -> (r: StringViewT)
    ensures
        info.replica_set_name is None ==> r.data is None,
        info.replica_set_name matches Some(n) ==> (r.data matches Some(b)
            && vstd::utf8::decode_utf8(b@) == n@),
{
    match &info.replica_set_name {
        Some(n) => {
            proof {
                vstd::utf8::encode_utf8_decode_utf8(n@);
            }
            StringViewT::from_str(n.as_str())
        },
        None => StringViewT { data: None },
    }
}

/// The replica set version; 0 when unknown.
pub fn mongoac_server_info_get_replica_set_version(info: &ServerInfoT) -> (r: i32)
    ensures
        r == match info.replica_set_version {
            Some(v) => v,
            None => 0i32,
        },
{
    match info.replica_set_version {
        Some(v) => v,
        None => 0,
    }
}

/// Whether the replica set version is known.
pub fn mongoac_server_info_replica_set_version_has_value(info: &ServerInfoT) -> (r: bool)
    ensures
        r == info.replica_set_version is Some,
{
    info.replica_set_version.is_some()
}

/// The server's tags as a BSON document; a null buffer when there are none.
pub fn mongoac_server_info_get_tags(info: &ServerInfoT) -> (r: BsonT)
    ensures
        info.tags is None ==> r.data is None,
        info.tags matches Some(t) ==> (r.data matches Some(b) && b@ == t@),
{
    match &info.tags {
        Some(t) => BsonT { data: Some(t.clone()) },
        None => BsonT { data: None },
    }
}

/// Whether the server's last check failed.
pub fn mongoac_server_info_has_error(info: &ServerInfoT) -> (r: bool)
    ensures
        r == info.has_error,
{
    info.has_error
}

/// Every integer survives the trip through `ServerTypeT` unchanged.
pub proof fn lemma_server_type_i32_round_trip(v: i32)
    ensures
        server_type_to_i32(server_type_from_i32(v)) == v,
{
}

/// Each named server type is the integer of the C API: unknown 0, standalone
/// 1, mongos 2, primary 3, secondary 4, arbiter 5, other 6, ghost 7, load
/// balancer 8, both ways.
pub proof fn lemma_server_types_are_the_c_constants()
    ensures
        MONGOAC_SERVER_TYPE_UNKNOWN == 0,
        server_type_to_i32(ServerTypeT::Unknown) == 0,
        server_type_from_i32(0) == ServerTypeT::Unknown,
        MONGOAC_SERVER_TYPE_STANDALONE == 1,
        server_type_to_i32(ServerTypeT::Standalone) == 1,
        server_type_from_i32(1) == ServerTypeT::Standalone,
        MONGOAC_SERVER_TYPE_MONGOS == 2,
        server_type_to_i32(ServerTypeT::Mongos) == 2,
        server_type_from_i32(2) == ServerTypeT::Mongos,
        MONGOAC_SERVER_TYPE_RS_PRIMARY == 3,
        server_type_to_i32(ServerTypeT::RsPrimary) == 3,
        server_type_from_i32(3) == ServerTypeT::RsPrimary,
        MONGOAC_SERVER_TYPE_RS_SECONDARY == 4,
        server_type_to_i32(ServerTypeT::RsSecondary) == 4,
        server_type_from_i32(4) == ServerTypeT::RsSecondary,
        MONGOAC_SERVER_TYPE_RS_ARBITER == 5,
        server_type_to_i32(ServerTypeT::RsArbiter) == 5,
        server_type_from_i32(5) == ServerTypeT::RsArbiter,
        MONGOAC_SERVER_TYPE_RS_OTHER == 6,
        server_type_to_i32(ServerTypeT::RsOther) == 6,
        server_type_from_i32(6) == ServerTypeT::RsOther,
        MONGOAC_SERVER_TYPE_RS_GHOST == 7,
        server_type_to_i32(ServerTypeT::RsGhost) == 7,
        server_type_from_i32(7) == ServerTypeT::RsGhost,
        MONGOAC_SERVER_TYPE_LOAD_BALANCER == 8,
        server_type_to_i32(ServerTypeT::LoadBalancer) == 8,
        server_type_from_i32(8) == ServerTypeT::LoadBalancer,
{
}

} // verus!
