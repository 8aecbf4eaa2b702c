//! Layer 2 bridge: ZeroTier and a physical interface joined in a Linux
//! bridge, kept across reboots by systemd-networkd unit files.
pub mod deps;
pub mod platform;
pub mod rules;

use vstd::prelude::*;

verus! {

/// The bridge to set up.
#[derive(Debug, Clone)]
pub struct BridgeConfig {
    /// ZeroTier interface (e.g. "zt7nnig26")
    pub zt_iface: String,
    /// Physical interface to bridge with ZT (e.g. "eth0")
    pub phy_iface: String,
    /// Bridge interface name (default: "br0")
    pub bridge_iface: String,
    /// Optional static IP for the bridge (CIDR, e.g. "192.168.1.10/24")
    pub bridge_addr: Option<String>,
    /// Optional default gateway for the bridge
    pub gateway: Option<String>,
    /// ZeroTier network ID (needed for instructions)
    pub network_id: String,
}

/// Whether the bridge is up, and with what.
#[derive(Debug, Clone)]
pub struct BridgeState {
    pub enabled: bool,
    pub config: Option<BridgeConfig>,
    /// When it was set up (RFC 3339).
    pub applied_at: Option<String>,
}

} // verus!
