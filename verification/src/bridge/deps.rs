//! What the bridge needs on the host.
use crate::command::{run, run_step, step_views, OnFailure, Step, StepView};
use vstd::prelude::*;

verus! {

#[derive(Debug, Clone)]
pub struct BridgeDeps {
    /// systemd-networkd available
    pub systemd_networkd: bool,
    /// systemd-resolved present (informational)
    pub systemd_resolved: bool,
    /// Running as root
    pub is_root: bool,
    /// `ip` command available (iproute2)
    pub iproute2: bool,
    /// dhcpcd is installed — conflicts with systemd-networkd
    pub dhcpcd_conflict: bool,
    /// ifupdown is installed — conflicts with systemd-networkd
    pub ifupdown_conflict: bool,
    /// Packages that must be removed / installed before bridging
    pub missing: Vec<String>,
}

/// Which tools are on the PATH.
#[derive(Debug, Clone, Copy)]
pub struct BridgeProbe {
    /// `ip`
    pub ip: bool,
    /// `networkctl`
    pub networkctl: bool,
    /// `resolvectl`
    pub resolvectl: bool,
    /// `dhcpcd`
    pub dhcpcd: bool,
    /// `ifup`
    pub ifup: bool,
    pub is_root: bool,
}

pub open spec fn missing_spec(p: BridgeProbe) -> Seq<Seq<char>> {
    let a: Seq<Seq<char>> = if !p.ip { seq!["iproute2 (ip command not found)"@] } else { seq![] };
    let b: Seq<Seq<char>> = if !p.networkctl { seq!["systemd-networkd (networkctl not found)"@] } else { seq![] };
    let c: Seq<Seq<char>> = if p.dhcpcd { seq!["remove dhcpcd5 (conflicts with systemd-networkd)"@] } else { seq![] };
    let d: Seq<Seq<char>> = if p.ifup { seq!["remove ifupdown (conflicts with systemd-networkd)"@] } else { seq![] };
    a + b + c + d
}

/// The requirements from what was found.
pub fn check(p: BridgeProbe) -> (r: BridgeDeps)
    ensures
        r.iproute2 == p.ip,
        r.systemd_networkd == p.networkctl,
        r.systemd_resolved == p.resolvectl,
        r.is_root == p.is_root,
        r.dhcpcd_conflict == p.dhcpcd,
        r.ifupdown_conflict == p.ifup,
        crate::command::string_views(r.missing@) == missing_spec(p),
{
    let mut missing: Vec<String> = Vec::new();
    if !p.ip {
        missing.push("iproute2 (ip command not found)".to_owned());
    }
    if !p.networkctl {
        missing.push("systemd-networkd (networkctl not found)".to_owned());
    }
    if p.dhcpcd {
        missing.push("remove dhcpcd5 (conflicts with systemd-networkd)".to_owned());
    }
    if p.ifup {
        missing.push("remove ifupdown (conflicts with systemd-networkd)".to_owned());
    }
    assert(crate::command::string_views(missing@) =~= missing_spec(p));
    BridgeDeps {
        systemd_networkd: p.networkctl,
        systemd_resolved: p.resolvectl,
        is_root: p.is_root,
        iproute2: p.ip,
        dhcpcd_conflict: p.dhcpcd,
        ifupdown_conflict: p.ifup,
        missing,
    }
}

/// The steps of `install`: the conflicting packages removed when asked,
/// then systemd-networkd enabled; failures are ignored.
pub open spec fn install_spec(remove_conflicts: bool) -> Seq<StepView> {
    let removals: Seq<StepView> = if remove_conflicts {
        seq![
            run("apt-get"@, seq!["remove"@, "-y"@, "dhcpcd5"@], OnFailure::Ignore),
            run("apt-get"@, seq!["remove"@, "-y"@, "ifupdown"@], OnFailure::Ignore),
            run("apt-get"@, seq!["remove"@, "-y"@, "isc-dhcp-client"@], OnFailure::Ignore),
        ]
    } else {
        seq![]
    };
    removals.push(run("systemctl"@, seq!["enable"@, "--now"@, "systemd-networkd"@], OnFailure::Ignore))
}

/// How to prepare the host for bridging on `os` (Linux only); afterwards
/// the requirements are checked again.
pub fn install(remove_conflicts: bool, os: &str) -> (r: Result<Vec<Step>, String>)
    ensures
        os@ != "linux"@ ==> (r matches Err(m) && m@ == "Bridge deps install requires Linux"@),
        os@ == "linux"@ ==> (r matches Ok(v) && step_views(v@) == install_spec(remove_conflicts)),
{
    if !crate::text::str_eq(os, "linux") {
        return Err("Bridge deps install requires Linux".to_owned());
    }
    let mut r: Vec<Step> = Vec::new();
    if remove_conflicts {
        let a = ["remove", "-y", "dhcpcd5"];
        assert(a@.map_values(|x: &str| x@) =~= seq!["remove"@, "-y"@, "dhcpcd5"@]);
        r.push(run_step("apt-get", &a, OnFailure::Ignore));
        let b = ["remove", "-y", "ifupdown"];
        assert(b@.map_values(|x: &str| x@) =~= seq!["remove"@, "-y"@, "ifupdown"@]);
        r.push(run_step("apt-get", &b, OnFailure::Ignore));
        let c = ["remove", "-y", "isc-dhcp-client"];
        assert(c@.map_values(|x: &str| x@) =~= seq!["remove"@, "-y"@, "isc-dhcp-client"@]);
        r.push(run_step("apt-get", &c, OnFailure::Ignore));
    }
    let ghost head = step_views(r@);
    let d = ["enable", "--now", "systemd-networkd"];
    assert(d@.map_values(|x: &str| x@) =~= seq!["enable"@, "--now"@, "systemd-networkd"@]);
    r.push(run_step("systemctl", &d, OnFailure::Ignore));
    assert(step_views(r@) =~= install_spec(remove_conflicts));
    Ok(r)
}

} // verus!
