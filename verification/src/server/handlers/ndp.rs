//! `POST /api/ndp/enable` and `POST /api/ndp/disable`.
use crate::exitnode::ndp::NdpConfig;
use crate::server::error::ApiError;
use crate::server::validate::{cidr, cidr_result, invalid};
use crate::text::{is_blank, trim};
use vstd::prelude::*;

verus! {

#[derive(Debug, Clone)]
pub struct EnableRequest {
    pub wan_iface: String,
    /// ZeroTier interface prefix (default "zt").
    pub zt_prefix: String,
    pub ipv6_prefix: String,
}

#[derive(Debug, Clone, Copy)]
pub struct DisableRequest {
    pub remove_config: bool,
}

pub fn default_zt_prefix() -> (r: String)
    ensures
        r@ == "zt"@,
{
    "zt".to_owned()
}

/// Decides an enable request: a WAN interface and a CIDR prefix, then root
/// privileges; yields the proxy to configure.
pub fn plan_enable(req: EnableRequest, is_root: bool) -> (r: Result<NdpConfig, ApiError>)
    ensures
        trim(req.wan_iface@).len() == 0 ==> invalid(r, "wan_iface is required"@),
        trim(req.wan_iface@).len() != 0 && cidr_result(req.ipv6_prefix@) is Err ==> invalid(r, cidr_result(req.ipv6_prefix@)->Err_0),
        trim(req.wan_iface@).len() != 0 && cidr_result(req.ipv6_prefix@) is Ok && !is_root ==> (r matches Err(
            ApiError::ZtLocal(m),
        ) && m@ == "Root privileges required to configure ndppd"@),
        trim(req.wan_iface@).len() != 0 && cidr_result(req.ipv6_prefix@) is Ok && is_root ==> r == Ok::<NdpConfig, ApiError>(
            NdpConfig { wan_iface: req.wan_iface, zt_prefix: req.zt_prefix, ipv6_prefix: req.ipv6_prefix },
        ),
{
    if is_blank(req.wan_iface.as_str()) {
        return Err(ApiError::InvalidInput("wan_iface is required".to_owned()));
    }
    if let Err(e) = cidr(req.ipv6_prefix.as_str()) {
        return Err(e);
    }
    if !is_root {
        return Err(ApiError::ZtLocal("Root privileges required to configure ndppd".to_owned()));
    }
    Ok(NdpConfig { wan_iface: req.wan_iface, zt_prefix: req.zt_prefix, ipv6_prefix: req.ipv6_prefix })
}

} // verus!
