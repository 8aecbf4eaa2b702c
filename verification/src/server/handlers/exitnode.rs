//! `POST /api/exitnode/enable`.
use crate::server::error::ApiError;
use crate::server::validate::{answers, cidr, cidr_result, is_network_id};
use crate::text::{is_blank, lit, push_str, string_of, trim};
use crate::zerotier::local_config::NetworkLocalConf;
use vstd::prelude::*;

verus! {

#[derive(Debug, Clone)]
pub struct EnableRequest {
    pub zt_interface: String,
    pub wan_interface: String,
    /// The ZeroTier network, whose local.conf is checked for allowDefault.
    pub network_id: Option<String>,
    /// Enable the IPv6 rules too.
    pub enable_ipv6: bool,
    /// Optional IPv6 prefix to scope the FORWARD rules (e.g. "2001:db8::/64")
    pub ipv6_prefix: Option<String>,
}

/// The request's fields are usable: both interfaces named, and the prefix,
/// when given, a CIDR.
pub fn check_enable(req: &EnableRequest) -> (r: Result<(), ApiError>)
    ensures
        trim(req.zt_interface@).len() == 0 || trim(req.wan_interface@).len() == 0 ==> (r matches Err(
            ApiError::InvalidInput(m),
        ) && m@ == "zt_interface and wan_interface are required"@),
        !(trim(req.zt_interface@).len() == 0 || trim(req.wan_interface@).len() == 0) ==> match req.ipv6_prefix {
            Some(p) => if cidr_result(p@) is Ok {
                r is Ok
            } else {
                r matches Err(ApiError::InvalidInput(m)) && m@ == "ipv6_prefix is not a valid CIDR: "@ + p@
            },
            None => r is Ok,
        },
{
    if is_blank(req.zt_interface.as_str()) || is_blank(req.wan_interface.as_str()) {
        return Err(ApiError::InvalidInput("zt_interface and wan_interface are required".to_owned()));
    }
    if let Some(p) = &req.ipv6_prefix {
        if cidr(p.as_str()).is_err() {
            let mut b = lit("ipv6_prefix is not a valid CIDR: ");
            push_str(&mut b, p.as_str());
            return Err(ApiError::InvalidInput(string_of(&b)));
        }
    }
    Ok(())
}

/// The network whose local.conf is checked: the request's, when it is a
/// valid network ID.
pub fn network_to_check(req: &EnableRequest) -> (r: Option<String>)
    ensures
        match req.network_id {
            Some(id) => if is_network_id(id@) { r == Some(id) } else { r is None },
            None => r is None,
        },
{
    match &req.network_id {
        Some(id) => {
            if crate::server::validate::network_id(id.as_str()).is_ok() {
                Some(id.clone())
            } else {
                None
            }
        },
        None => None,
    }
}

pub open spec fn allow_default_warning(id: Seq<char>) -> Seq<char> {
    "allowDefault is not set for network "@ + id
        + ". ZeroTier clients using this exit node must set allowDefault=1 in their network settings to route all traffic through this gateway."@
}

pub open spec fn allow_global_warning(id: Seq<char>) -> Seq<char> {
    "allowGlobal is not set for network "@ + id + ". IPv6 routing through the exit node requires allowGlobal=1."@
}

pub open spec fn no_conf_warning(id: Seq<char>) -> Seq<char> {
    "No local.conf found for network "@ + id + ". Clients may need allowDefault=1 to use this exit node."@
}

pub open spec fn ipv6_no_network_warning() -> Seq<char> {
    "IPv6 enabled without a network_id — cannot verify allowGlobal/allowDefault. Ensure ZeroTier clients have both flags set."@
}

pub open spec fn ipv6_nat_warning() -> Seq<char> {
    "IPv6 NAT (ip6tables MASQUERADE) is enabled. For native IPv6 delegation without NAT, configure ndppd and assign a public prefix."@
}

/// The warnings of an enable request, given the network's local.conf when
/// it was checked (`Some(None)` when it could not be read).
pub open spec fn warnings_spec(req: EnableRequest, conf: Option<(Seq<char>, Option<NetworkLocalConf>)>) -> Seq<Seq<char>> {
    let net: Seq<Seq<char>> = match conf {
        Some((id, Some(nc))) => {
            let a: Seq<Seq<char>> = if nc.allow_default != Some(true) { seq![allow_default_warning(id)] } else { seq![] };
            let b: Seq<Seq<char>> = if nc.allow_global != Some(true) { seq![allow_global_warning(id)] } else { seq![] };
            a + b
        },
        Some((id, None)) => seq![no_conf_warning(id)],
        None => seq![],
    };
    let v6: Seq<Seq<char>> = if req.enable_ipv6 {
        let a: Seq<Seq<char>> = if req.network_id is None { seq![ipv6_no_network_warning()] } else { seq![] };
        a.push(ipv6_nat_warning())
    } else {
        seq![]
    };
    net + v6
}

pub open spec fn conf_view(conf: Option<(String, Option<NetworkLocalConf>)>) -> Option<(Seq<char>, Option<NetworkLocalConf>)> {
    match conf {
        Some((id, nc)) => Some((id@, nc)),
        None => None,
    }
}

fn with_id(pre: &str, id: &str, post: &str) -> (r: String)
    ensures
        r@ == pre@ + id@ + post@,
{
    let mut b = lit(pre);
    push_str(&mut b, id);
    push_str(&mut b, post);
    string_of(&b)
}

/// The warnings of an enable request, given the network checked (see
/// `network_to_check`) and its local.conf (`None` when it could not be read).
pub fn enable_warnings(req: &EnableRequest, conf: Option<(String, Option<NetworkLocalConf>)>) -> (r: Vec<String>)
    ensures
        crate::command::string_views(r@) == warnings_spec(*req, conf_view(conf)),
{
    let mut w: Vec<String> = Vec::new();
    match &conf {
        Some((id, Some(nc))) => {
            if nc.allow_default != Some(true) {
                w.push(with_id(
                    "allowDefault is not set for network ",
                    id.as_str(),
                    ". ZeroTier clients using this exit node must set allowDefault=1 in their network settings to route all traffic through this gateway.",
                ));
            }
            if nc.allow_global != Some(true) {
                w.push(with_id(
                    "allowGlobal is not set for network ",
                    id.as_str(),
                    ". IPv6 routing through the exit node requires allowGlobal=1.",
                ));
            }
        },
        Some((id, None)) => {
            w.push(with_id(
                "No local.conf found for network ",
                id.as_str(),
                ". Clients may need allowDefault=1 to use this exit node.",
            ));
        },
        None => {},
    }
    let ghost net = crate::command::string_views(w@);
    if req.enable_ipv6 {
        if req.network_id.is_none() {
            w.push("IPv6 enabled without a network_id — cannot verify allowGlobal/allowDefault. Ensure ZeroTier clients have both flags set.".to_owned());
        }
        w.push("IPv6 NAT (ip6tables MASQUERADE) is enabled. For native IPv6 delegation without NAT, configure ndppd and assign a public prefix.".to_owned());
    }
    assert(crate::command::string_views(w@) =~= warnings_spec(*req, conf_view(conf)));
    w
}

} // verus!
