//! Bridge setup and teardown: `ip link` commands and systemd-networkd units.
use super::BridgeConfig;
use crate::command::{
    command_failure, command_failure_text, failure_text, io_failure, is_io_failure, runs_program, StepFailure,
    file_write, run, run_args, run_step, step_views, string_views, strings, Action, ActionView,
    OnFailure, Step, StepView,
};
use crate::text::{lit, push_str, string_of};
use vstd::prelude::*;

verus! {

/// Why setting up or removing the bridge failed.
#[derive(Debug, Clone)]
pub enum BridgeError {
    Io(String),
    Command(String),
    UnsupportedPlatform(String),
}

impl BridgeError {
    pub open spec fn message_spec(&self) -> Seq<char> {
        match self {
            BridgeError::Io(m) => "IO error: "@ + m@,
            BridgeError::Command(m) => "Command failed: "@ + m@,
            BridgeError::UnsupportedPlatform(m) => "Unsupported platform: "@ + m@,
        }
    }

    /// The human-readable description of the error (what `Display` shows).
    pub fn message(&self) -> (r: String)
        ensures
            r@ == self.message_spec(),
    {
        let (p, m) = match self {
            BridgeError::Io(m) => ("IO error: ", m),
            BridgeError::Command(m) => ("Command failed: ", m),
            BridgeError::UnsupportedPlatform(m) => ("Unsupported platform: ", m),
        };
        let mut b = lit(p);
        push_str(&mut b, m.as_str());
        string_of(&b)
    }
}

// ── Unit files ───────────────────────────────────────────────────────────────

pub open spec fn netdev_path(br: Seq<char>) -> Seq<char> {
    "/etc/systemd/network/10-ztnet-"@ + br + ".netdev"@
}

pub open spec fn master_path(br: Seq<char>) -> Seq<char> {
    "/etc/systemd/network/10-ztnet-"@ + br + "-master.network"@
}

pub open spec fn bridge_network_path(br: Seq<char>) -> Seq<char> {
    "/etc/systemd/network/10-ztnet-"@ + br + ".network"@
}

/// The `.netdev` unit that creates the bridge device.
pub open spec fn netdev_text(cfg: BridgeConfig) -> Seq<char> {
    "[NetDev]\nName="@ + cfg.bridge_iface@ + "\nKind=bridge\n"@
}

/// The `.network` unit that enslaves both interfaces, without DHCP.
pub open spec fn master_text(cfg: BridgeConfig) -> Seq<char> {
    "[Match]\nName="@ + cfg.zt_iface@ + "\nName="@ + cfg.phy_iface@ + "\n\n[Network]\nBridge="@
        + cfg.bridge_iface@ + "\n"@ + "DHCP=no\n"@
}

/// The `.network` unit of the bridge itself: the static address (and
/// gateway) when given, else DHCP.
pub open spec fn bridge_network_text(cfg: BridgeConfig) -> Seq<char> {
    let head = "[Match]\nName="@ + cfg.bridge_iface@ + "\n\n[Network]\n"@;
    match cfg.bridge_addr {
        Some(addr) => {
            let with_addr = head + "DHCP=no\n"@ + "\n[Address]\nAddress="@ + addr@ + "\n"@;
            match cfg.gateway {
                Some(gw) => with_addr + "\n[Route]\nGateway="@ + gw@ + "\n"@,
                None => with_addr,
            }
        },
        None => head + "DHCP=yes\n"@,
    }
}

fn unit_path(br: &str, suffix: &str) -> (r: String)
    ensures
        r@ == "/etc/systemd/network/10-ztnet-"@ + br@ + suffix@,
{
    let mut b = lit("/etc/systemd/network/10-ztnet-");
    push_str(&mut b, br);
    push_str(&mut b, suffix);
    string_of(&b)
}

fn netdev_content(cfg: &BridgeConfig) -> (r: String)
    ensures
        r@ == netdev_text(*cfg),
{
    let mut b = lit("[NetDev]\nName=");
    push_str(&mut b, cfg.bridge_iface.as_str());
    push_str(&mut b, "\nKind=bridge\n");
    string_of(&b)
}

fn master_content(cfg: &BridgeConfig) -> (r: String)
    ensures
        r@ == master_text(*cfg),
{
    let mut b = lit("[Match]\nName=");
    push_str(&mut b, cfg.zt_iface.as_str());
    push_str(&mut b, "\nName=");
    push_str(&mut b, cfg.phy_iface.as_str());
    push_str(&mut b, "\n\n[Network]\nBridge=");
    push_str(&mut b, cfg.bridge_iface.as_str());
    push_str(&mut b, "\n");
    push_str(&mut b, "DHCP=no\n");
    string_of(&b)
}

fn bridge_network_content(cfg: &BridgeConfig) -> (r: String)
    ensures
        r@ == bridge_network_text(*cfg),
{
    let mut b = lit("[Match]\nName=");
    push_str(&mut b, cfg.bridge_iface.as_str());
    push_str(&mut b, "\n\n[Network]\n");
    match &cfg.bridge_addr {
        Some(addr) => {
            push_str(&mut b, "DHCP=no\n");
            push_str(&mut b, "\n[Address]\nAddress=");
            push_str(&mut b, addr.as_str());
            push_str(&mut b, "\n");
            if let Some(gw) = &cfg.gateway {
                push_str(&mut b, "\n[Route]\nGateway=");
                push_str(&mut b, gw.as_str());
                push_str(&mut b, "\n");
            }
        },
        None => {
            push_str(&mut b, "DHCP=yes\n");
        },
    }
    string_of(&b)
}

// ── Plans ────────────────────────────────────────────────────────────────────

pub open spec fn ip(args: Seq<Seq<char>>, f: OnFailure) -> StepView {
    run("ip"@, args, f)
}

/// The steps of `apply`.
pub open spec fn apply_spec(cfg: BridgeConfig) -> Seq<StepView> {
    let br = cfg.bridge_iface@;
    let links = seq![
        ip(seq!["link"@, "add"@, br, "type"@, "bridge"@], OnFailure::Ignore),
        ip(seq!["link"@, "set"@, cfg.phy_iface@, "master"@, br], OnFailure::Abort),
        ip(seq!["link"@, "set"@, cfg.zt_iface@, "master"@, br], OnFailure::Abort),
        ip(seq!["link"@, "set"@, br, "up"@], OnFailure::Abort),
    ];
    let addr: Seq<StepView> = match cfg.bridge_addr {
        Some(a) => seq![
            ip(seq!["addr"@, "flush"@, "dev"@, br], OnFailure::Ignore),
            ip(seq!["addr"@, "add"@, a@, "dev"@, br], OnFailure::Abort),
        ],
        None => seq![],
    };
    let gw: Seq<StepView> = match cfg.gateway {
        Some(g) => seq![
            ip(seq!["route"@, "del"@, "default"@], OnFailure::Ignore),
            ip(seq!["route"@, "add"@, "default"@, "via"@, g@], OnFailure::Abort),
        ],
        None => seq![],
    };
    let units = seq![
        file_write(netdev_path(br), netdev_text(cfg), OnFailure::Abort),
        file_write(master_path(br), master_text(cfg), OnFailure::Abort),
        file_write(bridge_network_path(br), bridge_network_text(cfg), OnFailure::Abort),
        run("networkctl"@, seq!["reload"@], OnFailure::Ignore),
    ];
    links + addr + gw + units
}

pub open spec fn remove_file(path: Seq<char>) -> StepView {
    StepView { action: ActionView::Remove { path }, on_failure: OnFailure::Ignore }
}

/// The steps of `remove`; all failures are ignored.
pub open spec fn remove_spec(cfg: BridgeConfig) -> Seq<StepView> {
    let br = cfg.bridge_iface@;
    seq![
        ip(seq!["link"@, "set"@, cfg.zt_iface@, "nomaster"@], OnFailure::Ignore),
        ip(seq!["link"@, "set"@, cfg.phy_iface@, "nomaster"@], OnFailure::Ignore),
        ip(seq!["link"@, "set"@, br, "down"@], OnFailure::Ignore),
        ip(seq!["link"@, "del"@, br], OnFailure::Ignore),
        remove_file(netdev_path(br)),
        remove_file(master_path(br)),
        remove_file(bridge_network_path(br)),
        run("networkctl"@, seq!["reload"@], OnFailure::Ignore),
    ]
}

fn ip_step(args: Vec<String>, f: OnFailure) -> (r: Step)
    ensures
        r@ == ip(string_views(args@), f),
{
    run_args("ip", args, f)
}

fn write_unit(path: String, content: String) -> (r: Step)
    ensures
        r@ == file_write(path@, content@, OnFailure::Abort),
{
    Step { action: Action::Write { path, content }, on_failure: OnFailure::Abort }
}

fn reload_step() -> (r: Step)
    ensures
        r@ == run("networkctl"@, seq!["reload"@], OnFailure::Ignore),
{
    let a = ["reload"];
    assert(a@.map_values(|x: &str| x@) =~= seq!["reload"@]);
    run_step("networkctl", &a, OnFailure::Ignore)
}

/// How to set up the bridge on `os` (Linux only).
pub fn apply(cfg: &BridgeConfig, os: &str) -> (r: Result<Vec<Step>, BridgeError>)
    ensures
        os@ != "linux"@ ==> (r matches Err(BridgeError::UnsupportedPlatform(m)) && m@ == "Layer 2 Bridge requires Linux"@),
        os@ == "linux"@ ==> (r matches Ok(v) && step_views(v@) == apply_spec(*cfg)),
{
    if !crate::text::str_eq(os, "linux") {
        return Err(BridgeError::UnsupportedPlatform("Layer 2 Bridge requires Linux".to_owned()));
    }
    let br = cfg.bridge_iface.as_str();
    let phy = cfg.phy_iface.as_str();
    let zt = cfg.zt_iface.as_str();
    let mut r: Vec<Step> = Vec::new();
    let a0 = strings(&["link", "add", br, "type", "bridge"]);
    assert(string_views(a0@) =~= seq!["link"@, "add"@, br@, "type"@, "bridge"@]);
    r.push(ip_step(a0, OnFailure::Ignore));
    let a1 = strings(&["link", "set", phy, "master", br]);
    assert(string_views(a1@) =~= seq!["link"@, "set"@, phy@, "master"@, br@]);
    r.push(ip_step(a1, OnFailure::Abort));
    let a2 = strings(&["link", "set", zt, "master", br]);
    assert(string_views(a2@) =~= seq!["link"@, "set"@, zt@, "master"@, br@]);
    r.push(ip_step(a2, OnFailure::Abort));
    let a3 = strings(&["link", "set", br, "up"]);
    assert(string_views(a3@) =~= seq!["link"@, "set"@, br@, "up"@]);
    r.push(ip_step(a3, OnFailure::Abort));
    let ghost links = step_views(r@);
    if let Some(addr) = &cfg.bridge_addr {
        let a4 = strings(&["addr", "flush", "dev", br]);
        assert(string_views(a4@) =~= seq!["addr"@, "flush"@, "dev"@, br@]);
        r.push(ip_step(a4, OnFailure::Ignore));
        let a5 = strings(&["addr", "add", addr.as_str(), "dev", br]);
        assert(string_views(a5@) =~= seq!["addr"@, "add"@, addr@, "dev"@, br@]);
        r.push(ip_step(a5, OnFailure::Abort));
    }
    let ghost with_addr = step_views(r@);
    if let Some(gw) = &cfg.gateway {
        let a6 = strings(&["route", "del", "default"]);
        assert(string_views(a6@) =~= seq!["route"@, "del"@, "default"@]);
        r.push(ip_step(a6, OnFailure::Ignore));
        let a7 = strings(&["route", "add", "default", "via", gw.as_str()]);
        assert(string_views(a7@) =~= seq!["route"@, "add"@, "default"@, "via"@, gw@]);
        r.push(ip_step(a7, OnFailure::Abort));
    }
    let ghost with_gw = step_views(r@);
    r.push(write_unit(unit_path(br, ".netdev"), netdev_content(cfg)));
    r.push(write_unit(unit_path(br, "-master.network"), master_content(cfg)));
    r.push(write_unit(unit_path(br, ".network"), bridge_network_content(cfg)));
    r.push(reload_step());
    let ghost spec = apply_spec(*cfg);
    assert(step_views(r@) =~= spec) by {
        let n1 = links.len();
        let n2 = with_addr.len();
        let n3 = with_gw.len();
        assert(step_views(r@).take(n1 as int) =~= links);
        assert(step_views(r@).take(n2 as int) =~= with_addr);
        assert(step_views(r@).take(n3 as int) =~= with_gw);
    }
    Ok(r)
}

/// How to take the bridge down on `os` (Linux only).
pub fn remove(cfg: &BridgeConfig, os: &str) -> (r: Result<Vec<Step>, BridgeError>)
    ensures
        os@ != "linux"@ ==> (r matches Err(BridgeError::UnsupportedPlatform(m)) && m@ == "Layer 2 Bridge requires Linux"@),
        os@ == "linux"@ ==> (r matches Ok(v) && step_views(v@) == remove_spec(*cfg)),
{
    if !crate::text::str_eq(os, "linux") {
        return Err(BridgeError::UnsupportedPlatform("Layer 2 Bridge requires Linux".to_owned()));
    }
    let br = cfg.bridge_iface.as_str();
    let mut r: Vec<Step> = Vec::new();
    let a0 = strings(&["link", "set", cfg.zt_iface.as_str(), "nomaster"]);
    assert(string_views(a0@) =~= seq!["link"@, "set"@, cfg.zt_iface@, "nomaster"@]);
    r.push(ip_step(a0, OnFailure::Ignore));
    let a1 = strings(&["link", "set", cfg.phy_iface.as_str(), "nomaster"]);
    assert(string_views(a1@) =~= seq!["link"@, "set"@, cfg.phy_iface@, "nomaster"@]);
    r.push(ip_step(a1, OnFailure::Ignore));
    let a2 = strings(&["link", "set", br, "down"]);
    assert(string_views(a2@) =~= seq!["link"@, "set"@, br@, "down"@]);
    r.push(ip_step(a2, OnFailure::Ignore));
    let a3 = strings(&["link", "del", br]);
    assert(string_views(a3@) =~= seq!["link"@, "del"@, br@]);
    r.push(ip_step(a3, OnFailure::Ignore));
    r.push(Step { action: Action::Remove { path: unit_path(br, ".netdev") }, on_failure: OnFailure::Ignore });
    r.push(Step { action: Action::Remove { path: unit_path(br, "-master.network") }, on_failure: OnFailure::Ignore });
    r.push(Step { action: Action::Remove { path: unit_path(br, ".network") }, on_failure: OnFailure::Ignore });
    r.push(reload_step());
    assert(step_views(r@) =~= remove_spec(*cfg));
    Ok(r)
}

/// The error of a failed step of these plans: a file failure (a unit file
/// not written) is an I/O error with its text; a failed `ip` command is a
/// command error, reported with its arguments (`ip [..] exited with ..`, or
/// `ip spawn: ..`); other commands as `command_failure_text` says.
pub fn step_error(step: &Step, failure: StepFailure) -> (r: BridgeError)
    ensures
        is_io_failure(step.action@, failure) ==> (r matches BridgeError::Io(m) && m@ == failure_text(failure)),
        !is_io_failure(step.action@, failure) ==> (r matches BridgeError::Command(m) && m@ == command_failure_text(
            step.action@,
            failure,
            step.action@ matches ActionView::Run { program, .. } && program == "ip"@,
            " exited with "@,
        )),
{
    let shows = runs_program(&step.action, "ip");
    let m = command_failure(&step.action, &failure, shows, " exited with ");
    if io_failure(&step.action, &failure) {
        match &failure {
            StepFailure::File(e) => BridgeError::Io(e.clone()),
            _ => BridgeError::Io(m),
        }
    } else {
        BridgeError::Command(m)
    }
}

/// `remove` deletes every unit file that `apply` writes.
pub proof fn lemma_remove_deletes_units(cfg: BridgeConfig)
    ensures
        ({
            let a = apply_spec(cfg);
            let d = remove_spec(cfg);
            let n = a.len();
            &&& a[n - 4].action matches ActionView::Write { path, .. } && d[4] == remove_file(path)
            &&& a[n - 3].action matches ActionView::Write { path, .. } && d[5] == remove_file(path)
            &&& a[n - 2].action matches ActionView::Write { path, .. } && d[6] == remove_file(path)
        }),
{
}

/// The bridge takes in both interfaces: `apply` enslaves the physical
/// interface and then the ZeroTier interface to the bridge, each step's
/// failure ending the plan, before any unit file is written; `remove`
/// releases both.
pub proof fn lemma_bridge_enslaves_both(cfg: BridgeConfig)
    ensures
        ({
            let a = apply_spec(cfg);
            let br = cfg.bridge_iface@;
            exists|i: int, j: int|
                0 <= i < j < a.len() && a[i] == StepView {
                    action: ActionView::Run {
                        program: "ip"@,
                        args: seq!["link"@, "set"@, cfg.phy_iface@, "master"@, br],
                    },
                    on_failure: OnFailure::Abort,
                } && a[j] == StepView {
                    action: ActionView::Run {
                        program: "ip"@,
                        args: seq!["link"@, "set"@, cfg.zt_iface@, "master"@, br],
                    },
                    on_failure: OnFailure::Abort,
                } && forall|k: int| 0 <= k <= j ==> !(#[trigger] a[k].action is Write)
        }),
        ({
            let d = remove_spec(cfg);
            &&& exists|i: int| 0 <= i < d.len() && d[i].action == ActionView::Run {
                program: "ip"@,
                args: seq!["link"@, "set"@, cfg.zt_iface@, "nomaster"@],
            }
            &&& exists|i: int| 0 <= i < d.len() && d[i].action == ActionView::Run {
                program: "ip"@,
                args: seq!["link"@, "set"@, cfg.phy_iface@, "nomaster"@],
            }
        }),
{
    let a = apply_spec(cfg);
    let d = remove_spec(cfg);
    assert(a[1].action == ActionView::Run {
        program: "ip"@,
        args: seq!["link"@, "set"@, cfg.phy_iface@, "master"@, cfg.bridge_iface@],
    });
    assert(a[2].action == ActionView::Run {
        program: "ip"@,
        args: seq!["link"@, "set"@, cfg.zt_iface@, "master"@, cfg.bridge_iface@],
    });
    assert(forall|k: int| 0 <= k <= 2 ==> !(#[trigger] a[k].action is Write));
    assert(d[0].action == ActionView::Run { program: "ip"@, args: seq!["link"@, "set"@, cfg.zt_iface@, "nomaster"@] });
    assert(d[1].action == ActionView::Run { program: "ip"@, args: seq!["link"@, "set"@, cfg.phy_iface@, "nomaster"@] });
}

} // verus!
