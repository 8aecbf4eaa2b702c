//! The exit node's state and the decisions of turning it on and off.
//!
//! Enabling checks the privileges and the platform, picks the firewall tool
//! and names the rules to apply; once they are applied, the state records
//! them, so that disabling removes exactly those rules.
use super::platform::PlatformSupport;
use super::rules::{ExitNodeRules, FirewallBackend};
use crate::config::schema::ExitNodeConfig;
use crate::server::error::ApiError;
use crate::text::copy_opt;
use vstd::prelude::*;

verus! {

/// What the exit node is doing.
#[derive(Debug, Clone)]
pub struct ExitNodeState {
    pub enabled: bool,
    /// ZeroTier interface name (e.g. "ztabcd1234e") — not the network ID.
    pub zt_interface: Option<String>,
    pub wan_interface: Option<String>,
    pub backend: Option<FirewallBackend>,
    pub enable_ipv6: bool,
    pub ipv6_prefix: Option<String>,
    /// When the rules were applied (RFC 3339).
    pub applied_at: Option<String>,
}

impl Default for ExitNodeState {
    fn default() -> (r: Self)
        ensures
            r == ExitNodeState::off(),
    {
        ExitNodeState {
            enabled: false,
            zt_interface: None,
            wan_interface: None,
            backend: None,
            enable_ipv6: false,
            ipv6_prefix: None,
            applied_at: None,
        }
    }
}

impl ExitNodeState {
    /// The state of a disabled exit node.
    pub open spec fn off() -> Self {
        ExitNodeState {
            enabled: false,
            zt_interface: None,
            wan_interface: None,
            backend: None,
            enable_ipv6: false,
            ipv6_prefix: None,
            applied_at: None,
        }
    }

    /// A field-by-field copy.
    pub fn duplicate(&self) -> (r: Self)
        ensures
            r == *self,
    {
        ExitNodeState {
            enabled: self.enabled,
            zt_interface: copy_opt(&self.zt_interface),
            wan_interface: copy_opt(&self.wan_interface),
            backend: self.backend,
            enable_ipv6: self.enable_ipv6,
            ipv6_prefix: copy_opt(&self.ipv6_prefix),
            applied_at: copy_opt(&self.applied_at),
        }
    }
}

/// Which firewall tools are on the PATH.
#[derive(Debug, Clone, Copy)]
pub struct BackendTools {
    pub nft: bool,
    pub iptables: bool,
}

/// The firewall tool: nftables when preferred and there, else iptables when
/// there, else nftables when there, else iptables (which will then fail).
pub open spec fn backend_choice(prefer_nftables: bool, tools: BackendTools) -> FirewallBackend {
    if prefer_nftables && tools.nft {
        FirewallBackend::Nftables
    } else if tools.iptables {
        FirewallBackend::Iptables
    } else if tools.nft {
        FirewallBackend::Nftables
    } else {
        FirewallBackend::Iptables
    }
}

pub fn select_backend(prefer_nftables: bool, tools: BackendTools) -> (r: FirewallBackend)
    ensures
        r == backend_choice(prefer_nftables, tools),
{
    if prefer_nftables && tools.nft {
        FirewallBackend::Nftables
    } else if tools.iptables {
        FirewallBackend::Iptables
    } else if tools.nft {
        FirewallBackend::Nftables
    } else {
        FirewallBackend::Iptables
    }
}

/// What disabling has to do.
#[derive(Debug, Clone)]
pub enum DisablePlan {
    /// Nothing: the exit node is off.
    AlreadyDisabled,
    /// Remove these rules (when the state names them), then reset the state.
    Remove(Option<ExitNodeRules>),
}

/// The rules that a state records, when it names them all.
pub open spec fn recorded_rules(st: ExitNodeState) -> Option<ExitNodeRules> {
    match (st.zt_interface, st.wan_interface, st.backend) {
        (Some(zt), Some(wan), Some(b)) => Some(ExitNodeRules {
            zt_iface: zt,
            wan_iface: wan,
            backend: b,
            enable_ipv6: st.enable_ipv6,
            ipv6_prefix: st.ipv6_prefix,
        }),
        _ => None,
    }
}

/// The state after `rules` were applied at `at`.
pub open spec fn state_after_enable(rules: ExitNodeRules, at: String) -> ExitNodeState {
    ExitNodeState {
        enabled: true,
        zt_interface: Some(rules.zt_iface),
        wan_interface: Some(rules.wan_iface),
        backend: Some(rules.backend),
        enable_ipv6: rules.enable_ipv6,
        ipv6_prefix: rules.ipv6_prefix,
        applied_at: Some(at),
    }
}

/// The exit node's state and configuration.
#[derive(Debug)]
pub struct ExitNodeManager {
    pub state: ExitNodeState,
    pub config: ExitNodeConfig,
}

impl ExitNodeManager {
    pub fn new(config: ExitNodeConfig) -> (r: Self)
        ensures
            r.state == ExitNodeState::off(),
            r.config == config,
    {
        ExitNodeManager { state: ExitNodeState::default(), config }
    }

    pub fn status(&self) -> (r: ExitNodeState)
        ensures
            r == self.state,
    {
        self.state.duplicate()
    }

    /// The rules that enabling applies: refused without root privileges or on
    /// an unsupported platform; the backend from the configuration's
    /// preference and the tools there.
    pub fn plan_enable(
        &self,
        is_root: bool,
        platform: &PlatformSupport,
        tools: BackendTools,
        zt_iface: String,
        wan_iface: String,
        enable_ipv6: bool,
        ipv6_prefix: Option<String>,
    ) -> (r: Result<ExitNodeRules, ApiError>)
        ensures
            !is_root ==> (r matches Err(ApiError::ExitNode(m))
                && m@ == "Root privileges required to configure firewall rules"@),
            is_root && !platform.supported ==> (r matches Err(ApiError::ExitNode(m)) && m@ == match platform.reason {
                Some(reason) => reason@,
                None => "Unsupported platform"@,
            }),
            is_root && platform.supported ==> r == Ok::<ExitNodeRules, ApiError>(ExitNodeRules {
                zt_iface,
                wan_iface,
                backend: backend_choice(self.config.nftables_preferred, tools),
                enable_ipv6,
                ipv6_prefix,
            }),
    {
        if !is_root {
            return Err(ApiError::ExitNode("Root privileges required to configure firewall rules".to_owned()));
        }
        if !platform.supported {
            let m = match &platform.reason {
                Some(reason) => reason.clone(),
                None => "Unsupported platform".to_owned(),
            };
            return Err(ApiError::ExitNode(m));
        }
        let backend = select_backend(self.config.nftables_preferred, tools);
        Ok(ExitNodeRules::new(zt_iface, wan_iface, backend).with_ipv6(enable_ipv6, ipv6_prefix))
    }

    /// Records that `rules` were applied at `applied_at`; returns the new state.
    pub fn record_enabled(&mut self, rules: ExitNodeRules, applied_at: String) -> (r: ExitNodeState)
        ensures
            final(self).state == state_after_enable(rules, applied_at),
            final(self).config == old(self).config,
            r == final(self).state,
    {
        self.state = ExitNodeState {
            enabled: true,
            zt_interface: Some(rules.zt_iface),
            wan_interface: Some(rules.wan_iface),
            backend: Some(rules.backend),
            enable_ipv6: rules.enable_ipv6,
            ipv6_prefix: rules.ipv6_prefix,
            applied_at: Some(applied_at),
        };
        self.state.duplicate()
    }

    /// What disabling does: refused without root privileges; nothing when the
    /// exit node is off; else the recorded rules to remove.
    pub fn plan_disable(&self, is_root: bool) -> (r: Result<DisablePlan, ApiError>)
        ensures
            !is_root ==> (r matches Err(ApiError::ExitNode(m))
                && m@ == "Root privileges required to remove firewall rules"@),
            is_root && !self.state.enabled ==> r matches Ok(DisablePlan::AlreadyDisabled),
            is_root && self.state.enabled ==> r == Ok::<DisablePlan, ApiError>(
                DisablePlan::Remove(recorded_rules(self.state)),
            ),
    {
        if !is_root {
            return Err(ApiError::ExitNode("Root privileges required to remove firewall rules".to_owned()));
        }
        if !self.state.enabled {
            return Ok(DisablePlan::AlreadyDisabled);
        }
        let st = self.state.duplicate();
        match (st.zt_interface, st.wan_interface, st.backend) {
            (Some(zt), Some(wan), Some(b)) => Ok(DisablePlan::Remove(Some(
                ExitNodeRules::new(zt, wan, b).with_ipv6(st.enable_ipv6, st.ipv6_prefix),
            ))),
            _ => Ok(DisablePlan::Remove(None)),
        }
    }

    /// Records that the exit node is off.
    pub fn record_disabled(&mut self)
        ensures
            final(self).state == ExitNodeState::off(),
            final(self).config == old(self).config,
    {
        self.state = ExitNodeState::default();
    }
}

// ── Laws ─────────────────────────────────────────────────────────────────────

/// Disabling an exit node that was enabled with some rules removes exactly
/// those rules.
pub proof fn lemma_disable_removes_enabled_rules(rules: ExitNodeRules, at: String)
    ensures
        state_after_enable(rules, at).enabled,
        recorded_rules(state_after_enable(rules, at)) == Some(rules),
{
}

} // verus!
