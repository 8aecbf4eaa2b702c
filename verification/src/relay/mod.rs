//! TCP relay: the relay settings of ZeroTier's local.conf, and a `pylon`
//! reflect container deployed on a remote host over SSH.
pub mod deploy;
pub mod ssh;

use crate::zerotier::local_config::LocalSettings;
use vstd::prelude::*;

verus! {

/// The relay state the API reports.
#[derive(Debug, Clone)]
pub struct RelayStatus {
    /// Current local.conf relay settings.
    pub local: LocalRelayConfig,
    /// Remote pylon container status (None if never deployed).
    pub remote: Option<RemoteRelayInfo>,
}

/// The relay settings of local.conf.
#[derive(Debug, Clone)]
pub struct LocalRelayConfig {
    /// Force all ZeroTier traffic through TCP relay.
    pub force_tcp_relay: bool,
    /// Custom relay endpoint "ip/port", e.g. "1.2.3.4/443".
    pub tcp_fallback_relay: Option<String>,
}

impl Default for LocalRelayConfig {
    fn default() -> (r: Self)
        ensures
            !r.force_tcp_relay,
            r.tcp_fallback_relay is None,
    {
        LocalRelayConfig { force_tcp_relay: false, tcp_fallback_relay: None }
    }
}

impl Default for RelayStatus {
    fn default() -> (r: Self)
        ensures
            !r.local.force_tcp_relay,
            r.local.tcp_fallback_relay is None,
            r.remote is None,
    {
        RelayStatus { local: LocalRelayConfig::default(), remote: None }
    }
}

/// A deployed remote pylon relay container.
#[derive(Debug, Clone)]
pub struct RemoteRelayInfo {
    /// SSH host that was used for deployment.
    pub host: String,
    /// Port the pylon container listens on (default 443).
    pub port: u16,
    /// Whether the last reachability check succeeded.
    pub reachable: Option<bool>,
    /// RFC3339 timestamp of the last deploy.
    pub deployed_at: String,
}

/// Parameters for deploying a remote pylon relay.
#[derive(Debug, Clone)]
pub struct RelayDeployConfig {
    /// Remote host (IP or hostname).
    pub host: String,
    /// SSH port (default 22).
    pub ssh_port: u16,
    /// SSH user (default "root").
    pub ssh_user: String,
    /// Path to the private key on the local machine; when omitted, SSH uses
    /// its default key from `~/.ssh/`.
    pub key_path: Option<String>,
    /// Port for the pylon reflect container (default 443).
    pub pylon_port: u16,
    /// Stop UFW before starting Docker (avoids iptables conflicts).
    pub stop_ufw: bool,
}

pub fn default_ssh_port() -> (r: u16)
    ensures
        r == 22,
{
    22
}

pub fn default_ssh_user() -> (r: String)
    ensures
        r@ == "root"@,
{
    "root".to_owned()
}

pub fn default_pylon_port() -> (r: u16)
    ensures
        r == 443,
{
    443
}

pub fn default_true() -> (r: bool)
    ensures
        r,
{
    true
}

/// The relay part of local.conf's settings (all off when there are none).
pub fn read_local_relay(settings: &Option<LocalSettings>) -> (r: LocalRelayConfig)
    ensures
        match settings {
            Some(s) => r.force_tcp_relay == (s.force_tcp_relay == Some(true))
                && r.tcp_fallback_relay == s.tcp_fallback_relay,
            None => !r.force_tcp_relay && r.tcp_fallback_relay is None,
        },
{
    match settings {
        Some(s) => LocalRelayConfig {
            force_tcp_relay: match s.force_tcp_relay {
                Some(v) => v,
                None => false,
            },
            tcp_fallback_relay: crate::text::copy_opt(&s.tcp_fallback_relay),
        },
        None => LocalRelayConfig::default(),
    }
}

} // verus!
