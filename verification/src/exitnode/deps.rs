//! What the exit node needs on the host, and installing the firewall tool.
use super::rules::ExitNodeRules;
use crate::command::{run, run_step, InstallPlan, Installer, OnFailure};
use crate::text::{chars_of, trim, trim_vec};
use vstd::prelude::*;

verus! {

/// The exit node's requirements and what is missing.
#[derive(Debug, Clone)]
pub struct DepsStatus {
    pub iptables: Option<String>,
    pub nftables: Option<String>,
    pub ip6tables: Option<String>,
    pub is_root: bool,
    pub ip_forward_enabled: bool,
    pub ipv6_forward_enabled: bool,
    /// rp_filter is 0 or 2, so that client traffic with allowDefault=1 passes
    /// the reverse-path filter.
    pub rp_filter_ok: bool,
    /// A tool to persist the rules is there (netfilter-persistent,
    /// iptables-save or nft).
    pub persist_available: bool,
    pub missing: Vec<String>,
}

/// What was found on the host.
#[derive(Debug, Clone)]
pub struct DepsProbe {
    /// Paths of the tools found on the PATH.
    pub iptables: Option<String>,
    pub nftables: Option<String>,
    pub ip6tables: Option<String>,
    pub is_root: bool,
    /// Texts of `/proc/sys/net/ipv4/ip_forward`,
    /// `/proc/sys/net/ipv6/conf/all/forwarding` and
    /// `/proc/sys/net/ipv4/conf/all/rp_filter`; `None` when unreadable.
    pub ip_forward: Option<String>,
    pub ipv6_forward: Option<String>,
    pub rp_filter: Option<String>,
    pub netfilter_persistent: bool,
    pub iptables_save: bool,
}

/// A kernel switch file reads `1`.
pub open spec fn switched_on(text: Option<String>) -> bool {
    match text {
        Some(t) => trim(t@) == "1"@,
        None => false,
    }
}

/// rp_filter text that allows the exit node's traffic: `0` or `2`; a host
/// without the file is fine.
pub open spec fn rp_filter_allows(text: Option<String>) -> bool {
    match text {
        Some(t) => trim(t@) == "0"@ || trim(t@) == "2"@,
        None => true,
    }
}

/// The list of missing things that `check_deps` reports.
pub open spec fn missing_spec(p: DepsProbe) -> Seq<Seq<char>> {
    let a: Seq<Seq<char>> = if p.iptables.is_none() && p.nftables.is_none() {
        seq!["iptables or nftables"@]
    } else {
        seq![]
    };
    let b: Seq<Seq<char>> = if !switched_on(p.ip_forward) {
        seq!["ip_forward (will be enabled automatically)"@]
    } else {
        seq![]
    };
    let c: Seq<Seq<char>> = if !rp_filter_allows(p.rp_filter) {
        seq!["rp_filter=2 (required for client traffic; will be fixed automatically)"@]
    } else {
        seq![]
    };
    a + b + c
}

fn file_is(text: &Option<String>, value: &str) -> (r: bool)
    ensures
        r == (text matches Some(t) && trim(t@) == value@),
{
    match text {
        Some(t) => {
            let v = trim_vec(&chars_of(t.as_str()));
            crate::text_order::eq_vec(&v, &chars_of(value))
        },
        None => false,
    }
}

impl ExitNodeRules {
    /// Whether the rp_filter text (`None` when the file cannot be read, as off
    /// Linux) allows the exit node's traffic.
    pub fn check_rp_filter(text: &Option<String>) -> (r: bool)
        ensures
            r == rp_filter_allows(*text),
    {
        text.is_none() || file_is(text, "0") || file_is(text, "2")
    }
}

/// The exit node's requirements as the probe found them.
pub fn check_deps(p: DepsProbe) -> (r: DepsStatus)
    ensures
        r.iptables == p.iptables,
        r.nftables == p.nftables,
        r.ip6tables == p.ip6tables,
        r.is_root == p.is_root,
        r.ip_forward_enabled == switched_on(p.ip_forward),
        r.ipv6_forward_enabled == switched_on(p.ipv6_forward),
        r.rp_filter_ok == rp_filter_allows(p.rp_filter),
        r.persist_available == (p.netfilter_persistent || p.iptables_save || p.nftables.is_some()),
        crate::command::string_views(r.missing@) == missing_spec(p),
{
    let ip_forward = file_is(&p.ip_forward, "1");
    let ipv6_forward = file_is(&p.ipv6_forward, "1");
    let rp_filter_ok = ExitNodeRules::check_rp_filter(&p.rp_filter);
    let persist_available = p.netfilter_persistent || p.iptables_save || p.nftables.is_some();
    let mut missing: Vec<String> = Vec::new();
    let ghost m0 = crate::command::string_views(missing@);
    if p.iptables.is_none() && p.nftables.is_none() {
        missing.push("iptables or nftables".to_owned());
    }
    let ghost m1 = crate::command::string_views(missing@);
    if !ip_forward {
        missing.push("ip_forward (will be enabled automatically)".to_owned());
    }
    let ghost m2 = crate::command::string_views(missing@);
    if !rp_filter_ok {
        missing.push("rp_filter=2 (required for client traffic; will be fixed automatically)".to_owned());
    }
    assert(crate::command::string_views(missing@) =~= missing_spec(p));
    DepsStatus {
        iptables: p.iptables,
        nftables: p.nftables,
        ip6tables: p.ip6tables,
        is_root: p.is_root,
        ip_forward_enabled: ip_forward,
        ipv6_forward_enabled: ipv6_forward,
        rp_filter_ok,
        persist_available,
        missing,
    }
}

/// The command that installs `package` with `pm`.
pub open spec fn install_step(pm: Installer, package: Seq<char>) -> crate::command::StepView {
    match pm {
        Installer::Apt => run("/usr/bin/apt-get"@, seq!["install"@, "-y"@, package], OnFailure::Abort),
        Installer::Dnf => run("/usr/bin/dnf"@, seq!["install"@, "-y"@, package], OnFailure::Abort),
        Installer::Pacman => run("/usr/bin/pacman"@, seq!["-S"@, "--noconfirm"@, package], OnFailure::Abort),
    }
}

/// How to install the preferred firewall tool with the package manager
/// found (`None` when there is none); afterwards the requirements are
/// checked again.
pub fn install_missing(prefer_nftables: bool, pm: Option<Installer>) -> (r: Result<InstallPlan, String>)
    ensures
        ({
            let pkg = if prefer_nftables { "nftables"@ } else { "iptables"@ };
            match pm {
                None => r matches Err(e) && e@ == "No supported package manager found"@,
                Some(m) => r matches Ok(plan) && plan.step@ == install_step(m, pkg)
                    && plan.failure@ == "Failed to install "@ + pkg,
            }
        }),
{
    let pm = match pm {
        Some(m) => m,
        None => return Err("No supported package manager found".to_owned()),
    };
    let pkg = if prefer_nftables { "nftables" } else { "iptables" };
    let step = match pm {
        Installer::Apt => run_step("/usr/bin/apt-get", &["install", "-y", pkg], OnFailure::Abort),
        Installer::Dnf => run_step("/usr/bin/dnf", &["install", "-y", pkg], OnFailure::Abort),
        Installer::Pacman => run_step("/usr/bin/pacman", &["-S", "--noconfirm", pkg], OnFailure::Abort),
    };
    proof {
        let p = pkg@;
        assert(seq!["install", "-y", pkg].map_values(|x: &str| x@) =~= seq!["install"@, "-y"@, p]);
        assert(seq!["-S", "--noconfirm", pkg].map_values(|x: &str| x@) =~= seq!["-S"@, "--noconfirm"@, p]);
    }
    let mut b = crate::text::lit("Failed to install ");
    crate::text::push_str(&mut b, pkg);
    Ok(InstallPlan { step, failure: crate::text::string_of(&b) })
}

} // verus!
