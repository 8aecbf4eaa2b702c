//! `POST /api/bridge/enable`.
use crate::bridge::BridgeConfig;
use crate::server::error::ApiError;
use crate::server::validate::{cidr, cidr_result, invalid, ip_addr, is_ip, network_id, network_id_result};
use crate::text::{is_blank, lit, push_str, string_of, trim};
use vstd::prelude::*;

verus! {

#[derive(Debug, Clone)]
pub struct EnableRequest {
    pub zt_iface: String,
    pub phy_iface: String,
    /// Bridge interface name (default "br0").
    pub bridge_iface: String,
    pub bridge_addr: Option<String>,
    pub gateway: Option<String>,
    pub network_id: String,
}

pub fn default_bridge_iface() -> (r: String)
    ensures
        r@ == "br0"@,
{
    "br0".to_owned()
}

/// The first problem of the request's fields, in the order checked.
pub open spec fn field_check(req: EnableRequest) -> Result<(), Seq<char>> {
    if trim(req.zt_iface@).len() == 0 {
        Err("zt_iface required"@)
    } else if trim(req.phy_iface@).len() == 0 {
        Err("phy_iface required"@)
    } else if trim(req.bridge_iface@).len() == 0 {
        Err("bridge_iface required"@)
    } else if network_id_result(req.network_id@) is Err {
        network_id_result(req.network_id@)
    } else if req.bridge_addr matches Some(a) && cidr_result(a@) is Err {
        cidr_result(req.bridge_addr->0@)
    } else if req.gateway matches Some(g) && !is_ip(g@) {
        Err("invalid IP address: '"@ + req.gateway->0@ + "'"@)
    } else {
        Ok(())
    }
}

pub open spec fn next_step_text(network_id: Seq<char>) -> Seq<char> {
    "In ZeroTier Central network "@ + network_id
        + ", set 'bridging=true' for this member so it can forward L2 frames between ZT and physical hosts."@
}

/// Decides an enable request: the fields checked in order, then root
/// privileges, then no physical routing active; yields the bridge to set up
/// and the step left to the user.
pub fn plan_enable(req: EnableRequest, is_root: bool, physnet_on: bool) -> (r: Result<(BridgeConfig, String), ApiError>)
    ensures
        field_check(req) matches Err(m) ==> invalid(r, m),
        field_check(req) is Ok && !is_root ==> (r matches Err(ApiError::ZtLocal(m))
            && m@ == "Root privileges required for bridge setup"@),
        field_check(req) is Ok && is_root && physnet_on ==> (r matches Err(ApiError::ZtLocal(m))
            && m@ == "Physical Network Routing is active — disable it before enabling Bridge"@),
        field_check(req) is Ok && is_root && !physnet_on ==> (r matches Ok((cfg, next)) && cfg == (BridgeConfig {
            zt_iface: req.zt_iface,
            phy_iface: req.phy_iface,
            bridge_iface: req.bridge_iface,
            bridge_addr: req.bridge_addr,
            gateway: req.gateway,
            network_id: req.network_id,
        }) && next@ == next_step_text(req.network_id@)),
{
    if is_blank(req.zt_iface.as_str()) {
        return Err(ApiError::InvalidInput("zt_iface required".to_owned()));
    }
    if is_blank(req.phy_iface.as_str()) {
        return Err(ApiError::InvalidInput("phy_iface required".to_owned()));
    }
    if is_blank(req.bridge_iface.as_str()) {
        return Err(ApiError::InvalidInput("bridge_iface required".to_owned()));
    }
    if let Err(e) = network_id(req.network_id.as_str()) {
        return Err(e);
    }
    if let Some(a) = &req.bridge_addr {
        if let Err(e) = cidr(a.as_str()) {
            return Err(e);
        }
    }
    if let Some(g) = &req.gateway {
        if let Err(e) = ip_addr(g.as_str()) {
            return Err(e);
        }
    }
    if !is_root {
        return Err(ApiError::ZtLocal("Root privileges required for bridge setup".to_owned()));
    }
    if physnet_on {
        return Err(ApiError::ZtLocal("Physical Network Routing is active — disable it before enabling Bridge".to_owned()));
    }
    let mut b = lit("In ZeroTier Central network ");
    push_str(&mut b, req.network_id.as_str());
    push_str(&mut b, ", set 'bridging=true' for this member so it can forward L2 frames between ZT and physical hosts.");
    let next = string_of(&b);
    Ok((
        BridgeConfig {
            zt_iface: req.zt_iface,
            phy_iface: req.phy_iface,
            bridge_iface: req.bridge_iface,
            bridge_addr: req.bridge_addr,
            gateway: req.gateway,
            network_id: req.network_id,
        },
        next,
    ))
}

} // verus!
