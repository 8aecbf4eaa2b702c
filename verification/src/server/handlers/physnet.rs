//! `POST /api/physnet/enable`.
use crate::physnet::conflicts::{check, conflict_views, conflicts_spec, ConflictSeverity, ConflictView};
use crate::physnet::{managed_route_hint, widen_spec, PhysNetConfig};
use crate::server::error::ApiError;
use crate::server::validate::{answers, invalid, cidr, cidr_result, ip_addr, is_ip, network_id, network_id_result};
use crate::text::{is_blank, join_with, lit, push_str, string_of, trim};
use vstd::prelude::*;

verus! {

#[derive(Debug, Clone)]
pub struct EnableRequest {
    pub zt_iface: String,
    pub phy_iface: String,
    pub phy_subnet: String,
    pub zt_addr: String,
    pub network_id: String,
}

/// What enabling does once the request passed: the routing to apply, the
/// warnings to show and the step left to the user.
#[derive(Debug, Clone)]
pub struct EnablePlan {
    pub config: PhysNetConfig,
    pub warnings: Vec<String>,
    pub next_step: String,
}

/// The first problem of the request's fields, in the order checked.
pub open spec fn field_check(req: EnableRequest) -> Result<(), Seq<char>> {
    if trim(req.zt_iface@).len() == 0 {
        Err("zt_iface required"@)
    } else if trim(req.phy_iface@).len() == 0 {
        Err("phy_iface required"@)
    } else if cidr_result(req.phy_subnet@) is Err {
        cidr_result(req.phy_subnet@)
    } else if !is_ip(req.zt_addr@) {
        Err("invalid IP address: '"@ + req.zt_addr@ + "'"@)
    } else {
        network_id_result(req.network_id@)
    }
}

pub open spec fn conflict_messages(cs: Seq<ConflictView>) -> Seq<Seq<char>> {
    cs.map_values(|c: ConflictView| c.message)
}

pub open spec fn warning_messages(cs: Seq<ConflictView>) -> Seq<Seq<char>> {
    cs.filter(|c: ConflictView| c.severity == ConflictSeverity::Warning).map_values(|c: ConflictView| c.message)
}

pub open spec fn has_error(cs: Seq<ConflictView>) -> bool {
    exists|i: int| 0 <= i < cs.len() && cs[i].severity == ConflictSeverity::Error
}

/// The next step: a managed route in ZeroTier Central for the widened subnet.
pub open spec fn next_step_text(subnet: Seq<char>) -> Seq<char> {
    "Add managed route in ZeroTier Central: destination="@ + match widen_spec(subnet) {
        Some(w) => w,
        None => subnet,
    } + " via=<zt_addr>"@
}

/// Decides an enable request: the fields checked in order, then root
/// privileges, then the conflicts with an active exit node or bridge (any
/// error-level conflict refuses, listing every conflict).
pub fn plan_enable(req: EnableRequest, is_root: bool, exitnode_on: bool, bridge_on: bool) -> (r: Result<EnablePlan, ApiError>)
    ensures
        field_check(req) matches Err(m) ==> invalid(r, m),
        field_check(req) is Ok && !is_root ==> (r matches Err(ApiError::ZtLocal(m))
            && m@ == "Root privileges required for iptables rules"@),
        field_check(req) is Ok && is_root ==> ({
            let cs = conflicts_spec(req.phy_subnet@, None, exitnode_on, bridge_on);
            if has_error(cs) {
                r matches Err(ApiError::ZtLocal(m)) && m@ == join_with(conflict_messages(cs), "; "@)
            } else {
                r matches Ok(plan) && plan.config == (PhysNetConfig {
                    zt_iface: req.zt_iface,
                    phy_iface: req.phy_iface,
                    phy_subnet: req.phy_subnet,
                    zt_addr: req.zt_addr,
                    network_id: req.network_id,
                }) && crate::command::string_views(plan.warnings@) == warning_messages(cs)
                    && plan.next_step@ == next_step_text(req.phy_subnet@)
            }
        }),
{
    if is_blank(req.zt_iface.as_str()) {
        return Err(ApiError::InvalidInput("zt_iface required".to_owned()));
    }
    if is_blank(req.phy_iface.as_str()) {
        return Err(ApiError::InvalidInput("phy_iface required".to_owned()));
    }
    if let Err(e) = cidr(req.phy_subnet.as_str()) {
        return Err(e);
    }
    if let Err(e) = ip_addr(req.zt_addr.as_str()) {
        return Err(e);
    }
    if let Err(e) = network_id(req.network_id.as_str()) {
        return Err(e);
    }
    if !is_root {
        return Err(ApiError::ZtLocal("Root privileges required for iptables rules".to_owned()));
    }
    let report = check(req.phy_subnet.as_str(), None, exitnode_on, bridge_on);
    let ghost cs = conflict_views(report.conflicts@);
    assert(cs == conflicts_spec(req.phy_subnet@, None, exitnode_on, bridge_on));
    let mut messages: Vec<String> = Vec::new();
    let mut warnings: Vec<String> = Vec::new();
    let mut error = false;
    let mut i: usize = 0;
    while i < report.conflicts.len()
        invariant
            i <= report.conflicts.len(),
            cs == conflict_views(report.conflicts@),
            crate::command::string_views(messages@) == conflict_messages(cs.take(i as int)),
            crate::command::string_views(warnings@) == warning_messages(cs.take(i as int)),
            error == has_error(cs.take(i as int)),
        decreases report.conflicts.len() - i,
    {
        let c = &report.conflicts[i];
        let ghost pre = cs.take(i as int);
        let ghost now = cs.take(i + 1);
        assert(now =~= pre.push(cs[i as int]));
        assert(cs[i as int] == c@);
        let ghost mv = crate::command::string_views(messages@);
        messages.push(c.message.clone());
        assert(crate::command::string_views(messages@) =~= mv.push(c.message@));
        assert(conflict_messages(now) =~= conflict_messages(pre).push(c.message@));
        let ghost wv = crate::command::string_views(warnings@);
        proof {
            reveal_with_fuel(Seq::<ConflictView>::filter, 1);
            assert(now.drop_last() =~= pre);
        }
        if c.severity == ConflictSeverity::Warning {
            warnings.push(c.message.clone());
            assert(crate::command::string_views(warnings@) =~= wv.push(c.message@));
        } else {
            error = true;
        }
        assert(has_error(now) == (has_error(pre) || cs[i as int].severity == ConflictSeverity::Error)) by {
            if has_error(now) {
                let k = choose|k: int| 0 <= k < now.len() && now[k].severity == ConflictSeverity::Error;
                if k < i {
                    assert(pre[k] == now[k]);
                }
            }
            if has_error(pre) {
                let k = choose|k: int| 0 <= k < pre.len() && pre[k].severity == ConflictSeverity::Error;
                assert(now[k] == pre[k]);
            }
            if cs[i as int].severity == ConflictSeverity::Error {
                assert(now[i as int] == cs[i as int]);
            }
        }
        i += 1;
    }
    assert(cs.take(cs.len() as int) =~= cs);
    if error {
        return Err(ApiError::ZtLocal(crate::text::join_strings(&messages, "; ")));
    }
    let hint = managed_route_hint(req.phy_subnet.as_str());
    let mut b = lit("Add managed route in ZeroTier Central: destination=");
    push_str(&mut b, hint.as_str());
    push_str(&mut b, " via=<zt_addr>");
    Ok(EnablePlan {
        config: PhysNetConfig {
            zt_iface: req.zt_iface,
            phy_iface: req.phy_iface,
            phy_subnet: req.phy_subnet,
            zt_addr: req.zt_addr,
            network_id: req.network_id,
        },
        warnings,
        next_step: string_of(&b),
    })
}

} // verus!
