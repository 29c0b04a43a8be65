//! Client settings that cannot be given in the connection string, kept as
//! plain values until a client is built from them.

use crate::credential::CredentialT;
use crate::error::{ErrorCodeT, ErrorT};
use crate::read_concern::ReadConcernT;
use crate::read_preference::ReadPreferenceT;
use crate::server_api::ServerApiT;
use crate::server_info::ServerAddressT;
use crate::text::{i32_to_string, signed_decimal};
use crate::tls_options::{opt_str_to_string, opt_view, TlsOptionsT};
use crate::write_concern::WriteConcernT;
use crate::credential::opt_str_view;
use mongodb::options::ServerMonitoringMode;
use vstd::prelude::*;
use vstd::string::StringSliceAdditionalSpecFns;
use vstd::std_specs::convert::FromSpecImpl;

verus! {

#[allow(non_camel_case_types)]
pub type mongoac_server_monitoring_mode_t = i32;

pub const MONGOAC_SERVER_MONITORING_MODE_AUTO: mongoac_server_monitoring_mode_t = 0;

pub const MONGOAC_SERVER_MONITORING_MODE_STREAM: mongoac_server_monitoring_mode_t = 1;

pub const MONGOAC_SERVER_MONITORING_MODE_POLL: mongoac_server_monitoring_mode_t = 2;

/// A server monitoring mode; other values are carried as `Unknown`.
#[derive(Debug, Clone, Copy, PartialEq, Eq, Structural)]
pub enum ServerMonitoringModeT {
    Auto,
    Stream,
    Poll,
    Unknown(i32),
}

/// The monitoring mode that an integer names.
pub open spec fn monitoring_mode_from_i32(v: i32) -> ServerMonitoringModeT {
    if v == 0 {
        ServerMonitoringModeT::Auto
    } else if v == 1 {
        ServerMonitoringModeT::Stream
    } else if v == 2 {
        ServerMonitoringModeT::Poll
    } else {
        ServerMonitoringModeT::Unknown(v)
    }
}

/// The integer that a monitoring mode stands for.
pub open spec fn monitoring_mode_to_i32(m: ServerMonitoringModeT) -> i32 {
    match m {
        ServerMonitoringModeT::Auto => 0,
        ServerMonitoringModeT::Stream => 1,
        ServerMonitoringModeT::Poll => 2,
        ServerMonitoringModeT::Unknown(v) => v,
    }
}

impl From<i32> for ServerMonitoringModeT {
    fn from(v: i32) -> (r: Self) {
        if v == MONGOAC_SERVER_MONITORING_MODE_AUTO {
            ServerMonitoringModeT::Auto
        } else if v == MONGOAC_SERVER_MONITORING_MODE_STREAM {
            ServerMonitoringModeT::Stream
        } else if v == MONGOAC_SERVER_MONITORING_MODE_POLL {
            ServerMonitoringModeT::Poll
        } else {
            ServerMonitoringModeT::Unknown(v)
        }
    }
}

impl FromSpecImpl<i32> for ServerMonitoringModeT {
    open spec fn obeys_from_spec() -> bool {
        true
    }

    open spec fn from_spec(v: i32) -> Self {
        monitoring_mode_from_i32(v)
    }
}

impl From<ServerMonitoringModeT> for i32 {
    fn from(m: ServerMonitoringModeT) -> (r: i32) {
        match m {
            ServerMonitoringModeT::Auto => MONGOAC_SERVER_MONITORING_MODE_AUTO,
            ServerMonitoringModeT::Stream => MONGOAC_SERVER_MONITORING_MODE_STREAM,
            ServerMonitoringModeT::Poll => MONGOAC_SERVER_MONITORING_MODE_POLL,
            ServerMonitoringModeT::Unknown(v) => v,
        }
    }
}

impl FromSpecImpl<ServerMonitoringModeT> for i32 {
    open spec fn obeys_from_spec() -> bool {
        true
    }

    open spec fn from_spec(m: ServerMonitoringModeT) -> i32 {
        monitoring_mode_to_i32(m)
    }
}

/// "unknown mongoac_server_monitoring_mode_t: <v>".
pub open spec fn unknown_monitoring_mode_message(v: i32) -> Seq<char> {
    "unknown mongoac_server_monitoring_mode_t: "@ + signed_decimal(v as int)
}

/// Checks that a monitoring mode is one the driver knows; an unknown value is
/// an invalid argument that names it.
pub fn check_server_monitoring_mode(m: ServerMonitoringModeT) -> (r: Result<ServerMonitoringModeT, ErrorT>)
    ensures
        !(m is Unknown) ==> r == Ok::<ServerMonitoringModeT, ErrorT>(m),
        m matches ServerMonitoringModeT::Unknown(v) ==> (r matches Err(e) && e.is_mongoac(
            ErrorCodeT::InvalidArgument,
            unknown_monitoring_mode_message(v),
        )),
{
    match m {
        ServerMonitoringModeT::Unknown(v) => {
            let msg = String::from_str("unknown mongoac_server_monitoring_mode_t: ").concat(
                i32_to_string(v).as_str(),
            );
            Err(ErrorT::from_mongoac(ErrorCodeT::InvalidArgument, msg.as_str()))
        },
        _ => Ok(m),
    }
}

#[verifier::external_type_specification]
#[verifier::external_body]
pub struct ExServerMonitoringMode(ServerMonitoringMode);

/// The driver's monitoring mode of the same name as one of the three named modes.
pub uninterp spec fn driver_monitoring_mode_named(m: ServerMonitoringModeT) -> ServerMonitoringMode;

/// Builds the driver's monitoring mode of the same name, one variant for each of
/// the three named modes. The driver's value is opaque here: the contract only
/// names it by the mode it was built from.
#[verifier::external_body]
fn driver_monitoring_mode(m: ServerMonitoringModeT) -> (r: ServerMonitoringMode)
    requires
        !(m is Unknown),
    ensures
        r == driver_monitoring_mode_named(m),
{
    match m {
        ServerMonitoringModeT::Stream => ServerMonitoringMode::Stream,
        ServerMonitoringModeT::Poll => ServerMonitoringMode::Poll,
        _ => ServerMonitoringMode::Auto,
    }
}

/// The driver's monitoring mode for a known mode; an unknown mode is refused.
pub fn server_monitoring_mode_to_driver(m: ServerMonitoringModeT) -> (r: Result<ServerMonitoringMode, ErrorT>)
    ensures
        r is Ok <==> !(m is Unknown),
        r matches Ok(d) ==> d == driver_monitoring_mode_named(m),
        m matches ServerMonitoringModeT::Unknown(v) ==> (r matches Err(e) && e.is_mongoac(
            ErrorCodeT::InvalidArgument,
            unknown_monitoring_mode_message(v),
        )),
{
    let m = check_server_monitoring_mode(m)?;
    Ok(driver_monitoring_mode(m))
}

/// A wire compressor, with its level where it has one.
#[derive(Debug, Clone, Copy, PartialEq, Eq, Structural)]
pub enum CompressorT {
    Snappy,
    Zlib { level: Option<u32> },
    Zstd { level: Option<i32> },
}

/// The metadata a driver reports about itself in the connection handshake.
#[derive(Debug)]
pub struct DriverInfoT {
    pub name: String,
    pub version: Option<String>,
    pub platform: Option<String>,
}

impl DriverInfoT {
    /// Whether two metadata records say the same.
    pub open spec fn same_as(&self, other: &Self) -> bool {
        &&& self.name@ == other.name@
        &&& opt_view(self.version) == opt_view(other.version)
        &&& opt_view(self.platform) == opt_view(other.platform)
    }

    /// A copy of the metadata.
    pub fn duplicate(&self) -> (r: Self)
        ensures
            r.same_as(self),
    {
        DriverInfoT {
            name: self.name.clone(),
            version: crate::tls_options::clone_opt_string(&self.version),
            platform: crate::tls_options::clone_opt_string(&self.platform),
        }
    }
}

/// The settings themselves; `None` leaves a setting to the driver's default.
#[derive(Debug)]
pub struct ClientOptionsInner {
    pub app_name: Option<String>,
    pub connect_timeout_ms: Option<u64>,
    pub direct_connection: Option<bool>,
    pub driver_info: Option<DriverInfoT>,
    pub enable_overload_retargeting: Option<bool>,
    pub heartbeat_freq_ms: Option<u64>,
    pub hosts: Vec<ServerAddressT>,
    pub load_balanced: Option<bool>,
    pub local_threshold_ms: Option<u64>,
    pub max_adaptive_retries: Option<u32>,
    pub max_connecting: Option<u32>,
    pub max_idle_time_ms: Option<u64>,
    pub max_pool_size: Option<u32>,
    pub min_pool_size: Option<u32>,
    pub read_concern: Option<ReadConcernT>,
    pub write_concern: Option<WriteConcernT>,
    pub read_preference: Option<ReadPreferenceT>,
    pub repl_set_name: Option<String>,
    pub retry_reads: Option<bool>,
    pub retry_writes: Option<bool>,
    pub server_monitoring_mode: Option<ServerMonitoringModeT>,
    pub server_selection_timeout_ms: Option<u64>,
    pub default_database: Option<String>,
    pub srv_max_hosts: Option<u32>,
    pub srv_service_name: Option<String>,
    pub compressors: Option<Vec<CompressorT>>,
    pub tls: Option<TlsOptionsT>,
    pub credential: Option<CredentialT>,
    pub server_api: Option<ServerApiT>,
}

/// The settings, and which driver events a client built from them records.
#[derive(Debug)]
pub struct ClientOptionsT {
    pub inner: ClientOptionsInner,
    pub capture_command_events: bool,
    pub capture_cmap_events: bool,
    pub capture_sdam_events: bool,
}

/// The settings with nothing set and no event recorded.
pub open spec fn is_default_options(o: ClientOptionsT) -> bool {
    &&& !o.capture_command_events
    &&& !o.capture_cmap_events
    &&& !o.capture_sdam_events
    &&& o.inner.app_name is None
    &&& o.inner.connect_timeout_ms is None
    &&& o.inner.direct_connection is None
    &&& o.inner.driver_info is None
    &&& o.inner.enable_overload_retargeting is None
    &&& o.inner.heartbeat_freq_ms is None
    &&& o.inner.hosts@.len() == 0
    &&& o.inner.load_balanced is None
    &&& o.inner.local_threshold_ms is None
    &&& o.inner.max_adaptive_retries is None
    &&& o.inner.max_connecting is None
    &&& o.inner.max_idle_time_ms is None
    &&& o.inner.max_pool_size is None
    &&& o.inner.min_pool_size is None
    &&& o.inner.read_concern is None
    &&& o.inner.write_concern is None
    &&& o.inner.read_preference is None
    &&& o.inner.repl_set_name is None
    &&& o.inner.retry_reads is None
    &&& o.inner.retry_writes is None
    &&& o.inner.server_monitoring_mode is None
    &&& o.inner.server_selection_timeout_ms is None
    &&& o.inner.default_database is None
    &&& o.inner.srv_max_hosts is None
    &&& o.inner.srv_service_name is None
    &&& o.inner.compressors is None
    &&& o.inner.tls is None
    &&& o.inner.credential is None
    &&& o.inner.server_api is None
}

/// New settings with nothing set and no event recorded.
pub fn mongoac_client_options_new() -> (r: ClientOptionsT)
    ensures
        is_default_options(r),
{
    ClientOptionsT {
        inner: ClientOptionsInner {
            app_name: None,
            connect_timeout_ms: None,
            direct_connection: None,
            driver_info: None,
            enable_overload_retargeting: None,
            heartbeat_freq_ms: None,
            hosts: Vec::new(),
            load_balanced: None,
            local_threshold_ms: None,
            max_adaptive_retries: None,
            max_connecting: None,
            max_idle_time_ms: None,
            max_pool_size: None,
            min_pool_size: None,
            read_concern: None,
            write_concern: None,
            read_preference: None,
            repl_set_name: None,
            retry_reads: None,
            retry_writes: None,
            server_monitoring_mode: None,
            server_selection_timeout_ms: None,
            default_database: None,
            srv_max_hosts: None,
            srv_service_name: None,
            compressors: None,
            tls: None,
            credential: None,
            server_api: None,
        },
        capture_command_events: false,
        capture_cmap_events: false,
        capture_sdam_events: false,
    }
}

/// Turns recording of command events on or off.
pub fn mongoac_client_options_set_capture_command_events(opts: &mut ClientOptionsT, v: bool)
    ensures
        *final(opts) == (ClientOptionsT { capture_command_events: v, ..*old(opts) }),
{
    opts.capture_command_events = v;
}

/// Turns recording of cmap events on or off.
pub fn mongoac_client_options_set_capture_cmap_events(opts: &mut ClientOptionsT, v: bool)
    ensures
        *final(opts) == (ClientOptionsT { capture_cmap_events: v, ..*old(opts) }),
{
    opts.capture_cmap_events = v;
}

/// Turns recording of sdam events on or off.
pub fn mongoac_client_options_set_capture_sdam_events(opts: &mut ClientOptionsT, v: bool)
    ensures
        *final(opts) == (ClientOptionsT { capture_sdam_events: v, ..*old(opts) }),
{
    opts.capture_sdam_events = v;
}

/// Sets the connection timeout, in milliseconds.
pub fn mongoac_client_options_set_connect_timeout_ms(opts: &mut ClientOptionsT, v: u64)
    ensures
        *final(opts) == (ClientOptionsT {
            inner: ClientOptionsInner { connect_timeout_ms: Some(v), ..old(opts).inner },
            ..*old(opts)
        }),
{
    opts.inner.connect_timeout_ms = Some(v);
}

/// Connects directly to one host, or not.
pub fn mongoac_client_options_set_direct_connection(opts: &mut ClientOptionsT, v: bool)
    ensures
        *final(opts) == (ClientOptionsT {
            inner: ClientOptionsInner { direct_connection: Some(v), ..old(opts).inner },
            ..*old(opts)
        }),
{
    opts.inner.direct_connection = Some(v);
}

/// Turns retargeting of overloaded servers on or off.
pub fn mongoac_client_options_set_enable_overload_retargeting(opts: &mut ClientOptionsT, v: bool)
    ensures
        *final(opts) == (ClientOptionsT {
            inner: ClientOptionsInner { enable_overload_retargeting: Some(v), ..old(opts).inner },
            ..*old(opts)
        }),
{
    opts.inner.enable_overload_retargeting = Some(v);
}

/// Sets the server monitoring interval, in milliseconds.
pub fn mongoac_client_options_set_heartbeat_freq_ms(opts: &mut ClientOptionsT, v: u64)
    ensures
        *final(opts) == (ClientOptionsT {
            inner: ClientOptionsInner { heartbeat_freq_ms: Some(v), ..old(opts).inner },
            ..*old(opts)
        }),
{
    opts.inner.heartbeat_freq_ms = Some(v);
}

/// Declares the deployment load balanced, or not.
pub fn mongoac_client_options_set_load_balanced(opts: &mut ClientOptionsT, v: bool)
    ensures
        *final(opts) == (ClientOptionsT {
            inner: ClientOptionsInner { load_balanced: Some(v), ..old(opts).inner },
            ..*old(opts)
        }),
{
    opts.inner.load_balanced = Some(v);
}

/// Sets the latency window of server selection, in milliseconds.
pub fn mongoac_client_options_set_local_threshold_ms(opts: &mut ClientOptionsT, v: u64)
    ensures
        *final(opts) == (ClientOptionsT {
            inner: ClientOptionsInner { local_threshold_ms: Some(v), ..old(opts).inner },
            ..*old(opts)
        }),
{
    opts.inner.local_threshold_ms = Some(v);
}

/// Sets the maximum number of adaptive retries.
pub fn mongoac_client_options_set_max_adaptive_retries(opts: &mut ClientOptionsT, v: u32)
    ensures
        *final(opts) == (ClientOptionsT {
            inner: ClientOptionsInner { max_adaptive_retries: Some(v), ..old(opts).inner },
            ..*old(opts)
        }),
{
    opts.inner.max_adaptive_retries = Some(v);
}

/// Sets the maximum number of connections being established at once.
pub fn mongoac_client_options_set_max_connecting(opts: &mut ClientOptionsT, v: u32)
    ensures
        *final(opts) == (ClientOptionsT {
            inner: ClientOptionsInner { max_connecting: Some(v), ..old(opts).inner },
            ..*old(opts)
        }),
{
    opts.inner.max_connecting = Some(v);
}

/// Sets how long a pooled connection may stay idle, in milliseconds.
pub fn mongoac_client_options_set_max_idle_time_ms(opts: &mut ClientOptionsT, v: u64)
    ensures
        *final(opts) == (ClientOptionsT {
            inner: ClientOptionsInner { max_idle_time_ms: Some(v), ..old(opts).inner },
            ..*old(opts)
        }),
{
    opts.inner.max_idle_time_ms = Some(v);
}

/// Sets the maximum size of each connection pool.
pub fn mongoac_client_options_set_max_pool_size(opts: &mut ClientOptionsT, v: u32)
    ensures
        *final(opts) == (ClientOptionsT {
            inner: ClientOptionsInner { max_pool_size: Some(v), ..old(opts).inner },
            ..*old(opts)
        }),
{
    opts.inner.max_pool_size = Some(v);
}

/// Sets the minimum size of each connection pool.
pub fn mongoac_client_options_set_min_pool_size(opts: &mut ClientOptionsT, v: u32)
    ensures
        *final(opts) == (ClientOptionsT {
            inner: ClientOptionsInner { min_pool_size: Some(v), ..old(opts).inner },
            ..*old(opts)
        }),
{
    opts.inner.min_pool_size = Some(v);
}

/// Turns retryable reads on or off.
pub fn mongoac_client_options_set_retry_reads(opts: &mut ClientOptionsT, v: bool)
    ensures
        *final(opts) == (ClientOptionsT {
            inner: ClientOptionsInner { retry_reads: Some(v), ..old(opts).inner },
            ..*old(opts)
        }),
{
    opts.inner.retry_reads = Some(v);
}

/// Turns retryable writes on or off.
pub fn mongoac_client_options_set_retry_writes(opts: &mut ClientOptionsT, v: bool)
    ensures
        *final(opts) == (ClientOptionsT {
            inner: ClientOptionsInner { retry_writes: Some(v), ..old(opts).inner },
            ..*old(opts)
        }),
{
    opts.inner.retry_writes = Some(v);
}

/// Sets the server selection timeout, in milliseconds.
pub fn mongoac_client_options_set_server_selection_timeout_ms(opts: &mut ClientOptionsT, v: u64)
    ensures
        *final(opts) == (ClientOptionsT {
            inner: ClientOptionsInner { server_selection_timeout_ms: Some(v), ..old(opts).inner },
            ..*old(opts)
        }),
{
    opts.inner.server_selection_timeout_ms = Some(v);
}

/// Sets the maximum number of hosts taken from an SRV record.
pub fn mongoac_client_options_set_srv_max_hosts(opts: &mut ClientOptionsT, v: u32)
    ensures
        *final(opts) == (ClientOptionsT {
            inner: ClientOptionsInner { srv_max_hosts: Some(v), ..old(opts).inner },
            ..*old(opts)
        }),
{
    opts.inner.srv_max_hosts = Some(v);
}

/// Sets (or, with `None`, clears) the application name.
pub fn mongoac_client_options_set_app_name(opts: &mut ClientOptionsT, v: Option<&str>)
    ensures
        opt_view(final(opts).inner.app_name) == opt_str_view(v),
        *final(opts) == (ClientOptionsT {
            inner: ClientOptionsInner { app_name: final(opts).inner.app_name, ..old(opts).inner },
            ..*old(opts)
        }),
{
    opts.inner.app_name = opt_str_to_string(v);
}

/// Sets (or, with `None`, clears) the replica set name.
pub fn mongoac_client_options_set_repl_set_name(opts: &mut ClientOptionsT, v: Option<&str>)
    ensures
        opt_view(final(opts).inner.repl_set_name) == opt_str_view(v),
        *final(opts) == (ClientOptionsT {
            inner: ClientOptionsInner { repl_set_name: final(opts).inner.repl_set_name, ..old(opts).inner },
            ..*old(opts)
        }),
{
    opts.inner.repl_set_name = opt_str_to_string(v);
}

/// Sets (or, with `None`, clears) the default database.
pub fn mongoac_client_options_set_default_database(opts: &mut ClientOptionsT, v: Option<&str>)
    ensures
        opt_view(final(opts).inner.default_database) == opt_str_view(v),
        *final(opts) == (ClientOptionsT {
            inner: ClientOptionsInner { default_database: final(opts).inner.default_database, ..old(opts).inner },
            ..*old(opts)
        }),
{
    opts.inner.default_database = opt_str_to_string(v);
}

/// Sets (or, with `None`, clears) the SRV service name.
pub fn mongoac_client_options_set_srv_service_name(opts: &mut ClientOptionsT, v: Option<&str>)
    ensures
        opt_view(final(opts).inner.srv_service_name) == opt_str_view(v),
        *final(opts) == (ClientOptionsT {
            inner: ClientOptionsInner { srv_service_name: final(opts).inner.srv_service_name, ..old(opts).inner },
            ..*old(opts)
        }),
{
    opts.inner.srv_service_name = opt_str_to_string(v);
}

/// Sets the metadata the application reports; the name is required, version
/// and platform are optional.
pub fn mongoac_client_options_set_driver_info(
    opts: &mut ClientOptionsT,
    name: &str,
    version: Option<&str>,
    platform: Option<&str>,
)
    ensures
        final(opts).inner.driver_info matches Some(d) && d.name@ == name@ && opt_view(d.version)
            == opt_str_view(version) && opt_view(d.platform) == opt_str_view(platform),
        *final(opts) == (ClientOptionsT {
            inner: ClientOptionsInner { driver_info: final(opts).inner.driver_info, ..old(opts).inner },
            ..*old(opts)
        }),
{
    opts.inner.driver_info = Some(
        DriverInfoT {
            name: String::from_str(name),
            version: opt_str_to_string(version),
            platform: opt_str_to_string(platform),
        },
    );
}

/// Sets (or, with `None`, clears) the Stable API declaration.
pub fn mongoac_client_options_set_server_api(opts: &mut ClientOptionsT, v: Option<&ServerApiT>)
    ensures
        *final(opts) == (ClientOptionsT {
            inner: ClientOptionsInner {
                server_api: match v {
                    Some(a) => Some(*a),
                    None => None,
                },
                ..old(opts).inner
            },
            ..*old(opts)
        }),
{
    opts.inner.server_api = match v {
        Some(a) => Some(*a),
        None => None,
    };
}

/// Sets the server monitoring mode by its number; an unknown number is refused
/// and the settings stay as they are.
pub fn mongoac_client_options_set_server_monitoring_mode(
    opts: &mut ClientOptionsT,
    v: mongoac_server_monitoring_mode_t,
) -> (r: Result<(), ErrorT>)
    ensures
        r is Ok <==> 0 <= v <= 2,
        r is Ok ==> *final(opts) == (ClientOptionsT {
            inner: ClientOptionsInner {
                server_monitoring_mode: Some(monitoring_mode_from_i32(v)),
                ..old(opts).inner
            },
            ..*old(opts)
        }),
        r matches Err(e) ==> e.is_mongoac(ErrorCodeT::InvalidArgument, unknown_monitoring_mode_message(v))
            && *final(opts) == *old(opts),
{
    let m = check_server_monitoring_mode(ServerMonitoringModeT::from(v))?;
    opts.inner.server_monitoring_mode = Some(m);
    Ok(())
}

/// Appends a TCP host without a port.
pub fn mongoac_client_options_add_host(opts: &mut ClientOptionsT, host: &str)
    ensures
        final(opts).inner.hosts@.len() == old(opts).inner.hosts@.len() + 1,
        final(opts).inner.hosts@.drop_last() == old(opts).inner.hosts@,
        final(opts).inner.hosts@.last() matches ServerAddressT::Tcp { host: h, port: None } && h@ == host@,
        *final(opts) == (ClientOptionsT {
            inner: ClientOptionsInner { hosts: final(opts).inner.hosts, ..old(opts).inner },
            ..*old(opts)
        }),
{
    opts.inner.hosts.push(ServerAddressT::Tcp { host: String::from_str(host), port: None });
}

/// Appends a TCP host with a port.
pub fn mongoac_client_options_add_host_and_port(opts: &mut ClientOptionsT, host: &str, port: u16)
    ensures
        final(opts).inner.hosts@.len() == old(opts).inner.hosts@.len() + 1,
        final(opts).inner.hosts@.drop_last() == old(opts).inner.hosts@,
        final(opts).inner.hosts@.last() matches ServerAddressT::Tcp { host: h, port: Some(p) } && h@
            == host@ && p == port,
        *final(opts) == (ClientOptionsT {
            inner: ClientOptionsInner { hosts: final(opts).inner.hosts, ..old(opts).inner },
            ..*old(opts)
        }),
{
    opts.inner.hosts.push(ServerAddressT::Tcp { host: String::from_str(host), port: Some(port) });
}

/// Appends a Unix domain socket path.
pub fn mongoac_client_options_add_unix_path(opts: &mut ClientOptionsT, path: &str)
    ensures
        final(opts).inner.hosts@.len() == old(opts).inner.hosts@.len() + 1,
        final(opts).inner.hosts@.drop_last() == old(opts).inner.hosts@,
        final(opts).inner.hosts@.last() matches ServerAddressT::Unix { path: p } && p@ == path.spec_bytes(),
        *final(opts) == (ClientOptionsT {
            inner: ClientOptionsInner { hosts: final(opts).inner.hosts, ..old(opts).inner },
            ..*old(opts)
        }),
{
    opts.inner.hosts.push(ServerAddressT::Unix { path: vstd::slice::slice_to_vec(path.as_bytes()) });
}

/// The compressors after appending one: the list is created when absent.
pub open spec fn with_compressor(before: Option<Vec<CompressorT>>, c: CompressorT) -> Seq<CompressorT> {
    match before {
        Some(l) => l@.push(c),
        None => seq![c],
    }
}

fn push_compressor(opts: &mut ClientOptionsT, c: CompressorT)
    ensures
        final(opts).inner.compressors matches Some(l) && l@ == with_compressor(old(opts).inner.compressors, c),
        *final(opts) == (ClientOptionsT {
            inner: ClientOptionsInner { compressors: final(opts).inner.compressors, ..old(opts).inner },
            ..*old(opts)
        }),
{
    let mut list = match opts.inner.compressors.take() {
        Some(l) => l,
        None => Vec::new(),
    };
    list.push(c);
    opts.inner.compressors = Some(list);
}

/// Appends the snappy compressor.
pub fn mongoac_client_options_add_compressor_snappy(opts: &mut ClientOptionsT)
    ensures
        final(opts).inner.compressors matches Some(l) && l@ == with_compressor(old(opts).inner.compressors, CompressorT::Snappy),
        *final(opts) == (ClientOptionsT {
            inner: ClientOptionsInner { compressors: final(opts).inner.compressors, ..old(opts).inner },
            ..*old(opts)
        }),
{
    push_compressor(opts, CompressorT::Snappy);
}

/// Appends the zlib compressor at its default level.
pub fn mongoac_client_options_add_compressor_zlib(opts: &mut ClientOptionsT)
    ensures
        final(opts).inner.compressors matches Some(l) && l@ == with_compressor(old(opts).inner.compressors, CompressorT::Zlib { level: None }),
        *final(opts) == (ClientOptionsT {
            inner: ClientOptionsInner { compressors: final(opts).inner.compressors, ..old(opts).inner },
            ..*old(opts)
        }),
{
    push_compressor(opts, CompressorT::Zlib { level: None });
}

/// Appends the zlib compressor at the given level.
pub fn mongoac_client_options_add_compressor_zlib_with_level(opts: &mut ClientOptionsT, v: u32)
    ensures
        final(opts).inner.compressors matches Some(l) && l@ == with_compressor(old(opts).inner.compressors, CompressorT::Zlib { level: Some(v) }),
        *final(opts) == (ClientOptionsT {
            inner: ClientOptionsInner { compressors: final(opts).inner.compressors, ..old(opts).inner },
            ..*old(opts)
        }),
{
    push_compressor(opts, CompressorT::Zlib { level: Some(v) });
}

/// Appends the zstd compressor at its default level.
pub fn mongoac_client_options_add_compressor_zstd(opts: &mut ClientOptionsT)
    ensures
        final(opts).inner.compressors matches Some(l) && l@ == with_compressor(old(opts).inner.compressors, CompressorT::Zstd { level: None }),
        *final(opts) == (ClientOptionsT {
            inner: ClientOptionsInner { compressors: final(opts).inner.compressors, ..old(opts).inner },
            ..*old(opts)
        }),
{
    push_compressor(opts, CompressorT::Zstd { level: None });
}

/// Appends the zstd compressor at the given level.
pub fn mongoac_client_options_add_compressor_zstd_with_level(opts: &mut ClientOptionsT, v: i32)
    ensures
        final(opts).inner.compressors matches Some(l) && l@ == with_compressor(old(opts).inner.compressors, CompressorT::Zstd { level: Some(v) }),
        *final(opts) == (ClientOptionsT {
            inner: ClientOptionsInner { compressors: final(opts).inner.compressors, ..old(opts).inner },
            ..*old(opts)
        }),
{
    push_compressor(opts, CompressorT::Zstd { level: Some(v) });
}

/// Sets (or, with `None`, clears) the read concern, as a copy of the given one.
pub fn mongoac_client_options_set_read_concern(opts: &mut ClientOptionsT, v: Option<&ReadConcernT>)
    ensures
        v is None ==> final(opts).inner.read_concern is None,
        v matches Some(v) ==> (final(opts).inner.read_concern matches Some(a) && a.same_as(v)),
        *final(opts) == (ClientOptionsT {
            inner: ClientOptionsInner { read_concern: final(opts).inner.read_concern, ..old(opts).inner },
            ..*old(opts)
        }),
{
    opts.inner.read_concern = match v {
        Some(x) => Some(x.duplicate()),
        None => None,
    };
}

/// Sets (or, with `None`, clears) the write concern, as a copy of the given one.
pub fn mongoac_client_options_set_write_concern(opts: &mut ClientOptionsT, v: Option<&WriteConcernT>)
    ensures
        v is None ==> final(opts).inner.write_concern is None,
        v matches Some(v) ==> (final(opts).inner.write_concern matches Some(a) && a.same_as(v)),
        *final(opts) == (ClientOptionsT {
            inner: ClientOptionsInner { write_concern: final(opts).inner.write_concern, ..old(opts).inner },
            ..*old(opts)
        }),
{
    opts.inner.write_concern = match v {
        Some(x) => Some(x.duplicate()),
        None => None,
    };
}

/// Sets (or, with `None`, clears) the read preference, as a copy of the given one.
pub fn mongoac_client_options_set_read_preference(opts: &mut ClientOptionsT, v: Option<&ReadPreferenceT>)
    ensures
        v is None ==> final(opts).inner.read_preference is None,
        v matches Some(v) ==> (final(opts).inner.read_preference matches Some(a) && a.same_as(v)),
        *final(opts) == (ClientOptionsT {
            inner: ClientOptionsInner { read_preference: final(opts).inner.read_preference, ..old(opts).inner },
            ..*old(opts)
        }),
{
    opts.inner.read_preference = match v {
        Some(x) => Some(x.duplicate()),
        None => None,
    };
}

/// Sets (or, with `None`, clears) the TLS settings (which, set, turn TLS on), as a copy of the given one.
pub fn mongoac_client_options_set_tls(opts: &mut ClientOptionsT, v: Option<&TlsOptionsT>)
    ensures
        v is None ==> final(opts).inner.tls is None,
        v matches Some(v) ==> (final(opts).inner.tls matches Some(a) && a.same_as(v)),
        *final(opts) == (ClientOptionsT {
            inner: ClientOptionsInner { tls: final(opts).inner.tls, ..old(opts).inner },
            ..*old(opts)
        }),
{
    opts.inner.tls = match v {
        Some(x) => Some(x.duplicate()),
        None => None,
    };
}

/// Sets (or, with `None`, clears) the credential, as a copy of the given one.
pub fn mongoac_client_options_set_credential(opts: &mut ClientOptionsT, v: Option<&CredentialT>)
    ensures
        v is None ==> final(opts).inner.credential is None,
        v matches Some(v) ==> (final(opts).inner.credential matches Some(a) && a.same_as(v)),
        *final(opts) == (ClientOptionsT {
            inner: ClientOptionsInner { credential: final(opts).inner.credential, ..old(opts).inner },
            ..*old(opts)
        }),
{
    opts.inner.credential = match v {
        Some(x) => Some(x.duplicate()),
        None => None,
    };
}

/// Every integer survives the trip through `ServerMonitoringModeT` unchanged.
pub proof fn lemma_monitoring_mode_i32_round_trip(v: i32)
    ensures
        monitoring_mode_to_i32(monitoring_mode_from_i32(v)) == v,
{
}

/// Each named monitoring mode is the integer of the C API: auto 0, stream 1,
/// poll 2, both ways.
pub proof fn lemma_monitoring_modes_are_the_c_constants()
    ensures
        MONGOAC_SERVER_MONITORING_MODE_AUTO == 0,
        monitoring_mode_to_i32(ServerMonitoringModeT::Auto) == 0,
        monitoring_mode_from_i32(0) == ServerMonitoringModeT::Auto,
        MONGOAC_SERVER_MONITORING_MODE_STREAM == 1,
        monitoring_mode_to_i32(ServerMonitoringModeT::Stream) == 1,
        monitoring_mode_from_i32(1) == ServerMonitoringModeT::Stream,
        MONGOAC_SERVER_MONITORING_MODE_POLL == 2,
        monitoring_mode_to_i32(ServerMonitoringModeT::Poll) == 2,
        monitoring_mode_from_i32(2) == ServerMonitoringModeT::Poll,
{
}

} // verus!
