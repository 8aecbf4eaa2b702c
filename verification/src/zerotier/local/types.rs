//! Records of the local ZeroTier service API (`/status`, `/network`,
//! `/peer`, `/controller`, `/moon`).
use vstd::prelude::*;

verus! {

/// `GET /status`.
#[derive(Debug, Clone)]
pub struct NodeStatus {
    pub address: String,
    pub public_identity: String,
    pub planet_world_id: Option<u64>,
    pub planet_world_timestamp: Option<u64>,
    pub cluster_node_id: Option<u32>,
    pub clock: u64,
    pub online: bool,
    pub tcp_fallback_active: bool,
    pub relay_policy: Option<String>,
    pub version: String,
    pub version_major: Option<i32>,
    pub version_minor: Option<i32>,
    pub version_rev: Option<i32>,
    pub version_build: Option<i32>,
    pub config: Option<NodeConfig>,
}

#[derive(Debug, Clone)]
pub struct NodeConfig {
    pub settings: Option<NodeSettings>,
}

#[derive(Debug, Clone)]
pub struct NodeSettings {
    pub allow_tcp_fallback_relay: bool,
    pub primary_port: Option<u16>,
    pub secondary_port: Option<u16>,
    pub tertiary_port: Option<u16>,
    pub surface_addresses: Vec<String>,
}

/// A joined network, `GET /network/<id>`.
#[derive(Debug, Clone)]
pub struct NetworkMembership {
    pub id: String,
    pub name: String,
    pub status: String,
    pub type_: String,
    pub mac: String,
    pub mtu: u32,
    pub dhcp: bool,
    pub bridge: bool,
    pub broadcast_enabled: bool,
    pub port_error: i32,
    pub netconf_revision: u32,
    pub assigned_addresses: Vec<String>,
    pub routes: Vec<Route>,
    pub dns: Option<Dns>,
    pub allow_managed: bool,
    pub allow_global: bool,
    pub allow_default: bool,
    pub allow_dns: bool,
    pub port_device_name: Option<String>,
    pub authentication_url: Option<String>,
    pub authentication_expiry_time: Option<u64>,
}

/// The settings a member may change on a joined network.
#[derive(Debug, Clone)]
pub struct NetworkMembershipUpdate {
    pub allow_managed: Option<bool>,
    pub allow_global: Option<bool>,
    pub allow_default: Option<bool>,
    pub allow_dns: Option<bool>,
    pub dns: Option<Dns>,
}

/// `GET /peer`.
#[derive(Debug, Clone)]
pub struct PeerInfo {
    pub address: String,
    pub version: Option<String>,
    pub role: String,
    pub latency: i64,
    pub last_unicast_frame: Option<u64>,
    pub last_multicast_frame: Option<u64>,
    pub paths: Vec<PeerPath>,
    pub tunneled: bool,
}

#[derive(Debug, Clone)]
pub struct PeerPath {
    pub address: String,
    pub last_send: u64,
    pub last_receive: u64,
    pub active: bool,
    pub expired: bool,
    pub preferred: bool,
    pub trusted_path_id: Option<u64>,
    pub local_socket: Option<u64>,
}

/// The body that creates or updates a controller network.
#[derive(Debug, Clone)]
pub struct ControllerNetworkRequest {
    pub name: Option<String>,
    pub private: Option<bool>,
    pub enable_broadcast: Option<bool>,
    pub mtu: Option<u32>,
    pub multicast_limit: Option<u32>,
    pub ip_assignment_pools: Option<Vec<IpRange>>,
    pub routes: Option<Vec<Route>>,
    pub v4_assign_mode: Option<V4AssignMode>,
    pub v6_assign_mode: Option<V6AssignMode>,
    pub dns: Option<Dns>,
}

/// A member of a network this node controls.
#[derive(Debug, Clone)]
pub struct ControllerMember {
    pub node_id: String,
    pub authorized: bool,
    pub active_bridge: bool,
    pub ip_assignments: Vec<String>,
    pub name: Option<String>,
    pub description: Option<String>,
    pub no_auto_assign_ips: bool,
    pub sso_exempt: bool,
    pub revision: u64,
    pub last_modified_time: u64,
    pub capabilities: Vec<i64>,
    pub tags: Vec<Vec<i64>>,
}

#[derive(Debug, Clone)]
pub struct ControllerMemberUpdate {
    pub authorized: Option<bool>,
    pub active_bridge: Option<bool>,
    pub ip_assignments: Option<Vec<String>>,
    pub name: Option<String>,
    pub description: Option<String>,
    pub no_auto_assign_ips: Option<bool>,
}

/// An orbited moon.
#[derive(Debug, Clone)]
pub struct Moon {
    pub id: String,
    pub roots: Vec<MoonRoot>,
    pub timestamp: u64,
}

#[derive(Debug, Clone)]
pub struct MoonRoot {
    pub identity: String,
    pub stable_endpoints: Vec<String>,
}

/// The body of an orbit request.
#[derive(Debug, Clone)]
pub struct OrbitRequest {
    pub seed: Option<String>,
}

#[derive(Debug, Clone)]
pub struct Route {
    pub target: String,
    pub via: Option<String>,
}

#[derive(Debug, Clone)]
pub struct Dns {
    pub domain: String,
    pub servers: Vec<String>,
}

impl Default for Dns {
    fn default() -> (r: Self)
        ensures
            r.domain@.len() == 0,
            r.servers@.len() == 0,
    {
        Dns { domain: String::new(), servers: Vec::new() }
    }
}

#[derive(Debug, Clone)]
pub struct IpRange {
    pub start: String,
    pub end: String,
}

#[derive(Debug, Clone, Copy)]
pub struct V4AssignMode {
    pub zt: bool,
}

#[derive(Debug, Clone, Copy)]
pub struct V6AssignMode {
    pub zt: bool,
    pub rfc4193: bool,
    /// The service's field name is "6plane".
    pub six_plane: bool,
}

/// ZeroTier reports an unconfigured DNS as `{}`, `[]` or a record with no
/// domain and no servers: all of those mean no DNS.
pub fn configured_dns(dns: Dns) -> (r: Option<Dns>)
    ensures
        dns.domain@.len() == 0 && dns.servers@.len() == 0 ==> r is None,
        !(dns.domain@.len() == 0 && dns.servers@.len() == 0) ==> r == Some(dns),
{
    if dns.domain.as_str().is_empty() && dns.servers.len() == 0 {
        None
    } else {
        Some(dns)
    }
}

} // verus!
