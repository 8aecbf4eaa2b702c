//! The iptables rules of physical network routing.
use super::PhysNetConfig;
use crate::command::{
    command_failure, command_failure_text, failure_text, io_failure, is_io_failure, runs_program, ActionView, StepFailure,
    run, run_args, step_views, string_views, strings, sysctl, sysctl_step, write_step, file_write, OnFailure, Step, StepView};
use crate::exitnode::rules::PersistTools;
use crate::sysctl::SysctlMode;
use vstd::prelude::*;

verus! {

/// Why setting up or removing the routing failed.
#[derive(Debug, Clone)]
pub enum PhysNetError {
    Io(String),
    Command(String),
    UnsupportedPlatform(String),
}

impl PhysNetError {
    pub open spec fn message_spec(&self) -> Seq<char> {
        match self {
            PhysNetError::Io(m) => "IO error: "@ + m@,
            PhysNetError::Command(m) => "Command failed: "@ + m@,
            PhysNetError::UnsupportedPlatform(m) => "Unsupported platform: "@ + m@,
        }
    }

    /// The human-readable description of the error (what `Display` shows).
    pub fn message(&self) -> (r: String)
        ensures
            r@ == self.message_spec(),
    {
        let (p, m) = match self {
            PhysNetError::Io(m) => ("IO error: ", m),
            PhysNetError::Command(m) => ("Command failed: ", m),
            PhysNetError::UnsupportedPlatform(m) => ("Unsupported platform: ", m),
        };
        let mut b = crate::text::lit(p);
        crate::text::push_str(&mut b, m.as_str());
        crate::text::string_of(&b)
    }
}

/// The three rules: masquerade out of the physical interface, established
/// traffic back to ZeroTier, new traffic from ZeroTier; added (`op` = "-A")
/// or deleted (`op` = "-D").
pub open spec fn routing_rules(zt: Seq<char>, phy: Seq<char>, op: Seq<char>, f: OnFailure) -> Seq<StepView> {
    seq![
        run("iptables"@, seq!["-t"@, "nat"@, op, "POSTROUTING"@, "-o"@, phy, "-j"@, "MASQUERADE"@], f),
        run("iptables"@, seq![op, "FORWARD"@, "-i"@, phy, "-o"@, zt, "-m"@, "state"@, "--state"@, "RELATED,ESTABLISHED"@, "-j"@, "ACCEPT"@], f),
        run("iptables"@, seq![op, "FORWARD"@, "-i"@, zt, "-o"@, phy, "-j"@, "ACCEPT"@], f),
    ]
}

/// The best-effort steps that save the rules across reboots.
pub open spec fn persist_spec(tools: PersistTools) -> Seq<StepView> {
    if tools.netfilter_persistent {
        seq![run("netfilter-persistent"@, seq!["save"@], OnFailure::Ignore)]
    } else if tools.iptables_save {
        seq![run("sh"@, seq!["-c"@, "iptables-save > /etc/iptables/rules.v4"@], OnFailure::Ignore)]
    } else {
        seq![]
    }
}

/// The steps of `apply`: forwarding on (persisted when not yet in
/// sysctl.conf, best effort), the three rules, then persistence.
pub open spec fn apply_spec(cfg: PhysNetConfig, tools: PersistTools) -> Seq<StepView> {
    seq![
        file_write("/proc/sys/net/ipv4/ip_forward"@, "1\n"@, OnFailure::Abort),
        sysctl("net.ipv4.ip_forward"@, "1"@, SysctlMode::AddIfAbsent, OnFailure::Ignore),
    ] + routing_rules(cfg.zt_iface@, cfg.phy_iface@, "-A"@, OnFailure::Abort) + persist_spec(tools)
}

fn rule_steps(cfg: &PhysNetConfig, op: &str, f: OnFailure) -> (r: Vec<Step>)
    ensures
        step_views(r@) == routing_rules(cfg.zt_iface@, cfg.phy_iface@, op@, f),
{
    let zt = cfg.zt_iface.as_str();
    let phy = cfg.phy_iface.as_str();
    let a = strings(&["-t", "nat", op, "POSTROUTING", "-o", phy, "-j", "MASQUERADE"]);
    assert(string_views(a@) =~= seq!["-t"@, "nat"@, op@, "POSTROUTING"@, "-o"@, phy@, "-j"@, "MASQUERADE"@]);
    let s0 = run_args("iptables", a, f);
    let b = strings(&[op, "FORWARD", "-i", phy, "-o", zt, "-m", "state", "--state", "RELATED,ESTABLISHED", "-j", "ACCEPT"]);
    assert(string_views(b@) =~= seq![op@, "FORWARD"@, "-i"@, phy@, "-o"@, zt@, "-m"@, "state"@, "--state"@, "RELATED,ESTABLISHED"@, "-j"@, "ACCEPT"@]);
    let s1 = run_args("iptables", b, f);
    let c = strings(&[op, "FORWARD", "-i", zt, "-o", phy, "-j", "ACCEPT"]);
    assert(string_views(c@) =~= seq![op@, "FORWARD"@, "-i"@, zt@, "-o"@, phy@, "-j"@, "ACCEPT"@]);
    let s2 = run_args("iptables", c, f);
    let ghost v = seq![s0@, s1@, s2@];
    let mut r: Vec<Step> = Vec::new();
    r.push(s0);
    r.push(s1);
    r.push(s2);
    assert(step_views(r@) =~= v);
    assert(v =~= routing_rules(cfg.zt_iface@, cfg.phy_iface@, op@, f));
    r
}

/// How to set up the routing on `os` (Linux only).
pub fn apply(cfg: &PhysNetConfig, os: &str, tools: PersistTools) -> (r: Result<Vec<Step>, PhysNetError>)
    ensures
        os@ != "linux"@ ==> (r matches Err(PhysNetError::UnsupportedPlatform(m))
            && m@ == "Physical Network Routing requires Linux"@),
        os@ == "linux"@ ==> (r matches Ok(v) && step_views(v@) == apply_spec(*cfg, tools)),
{
    if !crate::text::str_eq(os, "linux") {
        return Err(PhysNetError::UnsupportedPlatform("Physical Network Routing requires Linux".to_owned()));
    }
    let mut r: Vec<Step> = Vec::new();
    r.push(write_step("/proc/sys/net/ipv4/ip_forward", "1\n", OnFailure::Abort));
    r.push(sysctl_step("net.ipv4.ip_forward", "1", SysctlMode::AddIfAbsent, OnFailure::Ignore));
    let ghost head = step_views(r@);
    let mut rules = rule_steps(cfg, "-A", OnFailure::Abort);
    let ghost rv = step_views(rules@);
    r.append(&mut rules);
    assert(step_views(r@) =~= head + rv);
    let ghost mid = step_views(r@);
    if tools.netfilter_persistent {
        let a = ["save"];
        assert(a@.map_values(|x: &str| x@) =~= seq!["save"@]);
        r.push(crate::command::run_step("netfilter-persistent", &a, OnFailure::Ignore));
        assert(step_views(r@) =~= mid + persist_spec(tools));
    } else if tools.iptables_save {
        let a = ["-c", "iptables-save > /etc/iptables/rules.v4"];
        assert(a@.map_values(|x: &str| x@) =~= seq!["-c"@, "iptables-save > /etc/iptables/rules.v4"@]);
        r.push(crate::command::run_step("sh", &a, OnFailure::Ignore));
        assert(step_views(r@) =~= mid + persist_spec(tools));
    } else {
        assert(step_views(r@) =~= mid + persist_spec(tools));
    }
    Ok(r)
}

/// How to remove the routing on `os` (Linux only); failures are ignored.
pub fn remove(cfg: &PhysNetConfig, os: &str) -> (r: Result<Vec<Step>, PhysNetError>)
    ensures
        os@ != "linux"@ ==> (r matches Err(PhysNetError::UnsupportedPlatform(m))
            && m@ == "Physical Network Routing requires Linux"@),
        os@ == "linux"@ ==> (r matches Ok(v) && step_views(v@) == routing_rules(
            cfg.zt_iface@,
            cfg.phy_iface@,
            "-D"@,
            OnFailure::Ignore,
        )),
{
    if !crate::text::str_eq(os, "linux") {
        return Err(PhysNetError::UnsupportedPlatform("Physical Network Routing requires Linux".to_owned()));
    }
    Ok(rule_steps(cfg, "-D", OnFailure::Ignore))
}

/// The error of a failed step of these plans: a file failure is an I/O
/// error with its text; a failed `iptables` command is a command error,
/// reported as `iptables <args in debug form> exited: <status>` or
/// `iptables spawn: <error>`; other commands as `command_failure_text` says.
pub fn step_error(step: &Step, failure: StepFailure) -> (r: PhysNetError)
    ensures
        is_io_failure(step.action@, failure) ==> (r matches PhysNetError::Io(m) && m@ == failure_text(failure)),
        !is_io_failure(step.action@, failure) ==> (r matches PhysNetError::Command(m) && m@ == command_failure_text(
            step.action@,
            failure,
            step.action@ matches ActionView::Run { program, .. } && program == "iptables"@,
            " exited: "@,
        )),
{
    let shows = runs_program(&step.action, "iptables");
    let m = command_failure(&step.action, &failure, shows, " exited: ");
    if io_failure(&step.action, &failure) {
        match &failure {
            StepFailure::File(e) => PhysNetError::Io(e.clone()),
            _ => PhysNetError::Io(m),
        }
    } else {
        PhysNetError::Command(m)
    }
}

/// `remove` deletes the very rules that `apply` adds, in the same form.
pub proof fn lemma_remove_undoes_apply(cfg: PhysNetConfig, tools: PersistTools)
    ensures
        apply_spec(cfg, tools).subrange(2, 5) == routing_rules(cfg.zt_iface@, cfg.phy_iface@, "-A"@, OnFailure::Abort),
{
    assert(apply_spec(cfg, tools).subrange(2, 5) =~= routing_rules(cfg.zt_iface@, cfg.phy_iface@, "-A"@, OnFailure::Abort));
}

/// The routing masquerades out of the physical interface and forwards
/// between the two interfaces in both directions: `apply` adds the NAT rule
/// `-t nat -A POSTROUTING -o <phy> -j MASQUERADE` (and no POSTROUTING rule
/// names another interface), the rule that lets ZeroTier traffic out to the
/// LAN, and the one that lets established traffic back; `remove` deletes the
/// same NAT rule.
pub proof fn lemma_routing_nat_on_physical(cfg: PhysNetConfig, tools: PersistTools)
    ensures
        ({
            let a = apply_spec(cfg, tools);
            let zt = cfg.zt_iface@;
            let phy = cfg.phy_iface@;
            &&& exists|i: int| 0 <= i < a.len() && a[i] == StepView {
                action: ActionView::Run {
                    program: "iptables"@,
                    args: seq!["-t"@, "nat"@, "-A"@, "POSTROUTING"@, "-o"@, phy, "-j"@, "MASQUERADE"@],
                },
                on_failure: OnFailure::Abort,
            }
            &&& exists|i: int| 0 <= i < a.len() && a[i].action == ActionView::Run {
                program: "iptables"@,
                args: seq!["-A"@, "FORWARD"@, "-i"@, zt, "-o"@, phy, "-j"@, "ACCEPT"@],
            }
            &&& exists|i: int| 0 <= i < a.len() && a[i].action == ActionView::Run {
                program: "iptables"@,
                args: seq!["-A"@, "FORWARD"@, "-i"@, phy, "-o"@, zt, "-m"@, "state"@, "--state"@, "RELATED,ESTABLISHED"@, "-j"@, "ACCEPT"@],
            }
            &&& forall|i: int| 0 <= i < a.len() ==> (#[trigger] a[i].action matches ActionView::Run { program, args }
                ==> (program == "iptables"@ && args.len() == 8 && args[3] == "POSTROUTING"@ ==> args[5] == phy))
        }),
        (exists|i: int| 0 <= i < routing_rules(cfg.zt_iface@, cfg.phy_iface@, "-D"@, OnFailure::Ignore).len()
            && routing_rules(cfg.zt_iface@, cfg.phy_iface@, "-D"@, OnFailure::Ignore)[i].action == (ActionView::Run {
                program: "iptables"@,
                args: seq!["-t"@, "nat"@, "-D"@, "POSTROUTING"@, "-o"@, cfg.phy_iface@, "-j"@, "MASQUERADE"@],
            })),
{
    let a = apply_spec(cfg, tools);
    let zt = cfg.zt_iface@;
    let phy = cfg.phy_iface@;
    assert(a[2] == StepView {
        action: ActionView::Run {
            program: "iptables"@,
            args: seq!["-t"@, "nat"@, "-A"@, "POSTROUTING"@, "-o"@, phy, "-j"@, "MASQUERADE"@],
        },
        on_failure: OnFailure::Abort,
    });
    assert(a[3].action == ActionView::Run {
        program: "iptables"@,
        args: seq!["-A"@, "FORWARD"@, "-i"@, phy, "-o"@, zt, "-m"@, "state"@, "--state"@, "RELATED,ESTABLISHED"@, "-j"@, "ACCEPT"@],
    });
    assert(a[4].action == ActionView::Run {
        program: "iptables"@,
        args: seq!["-A"@, "FORWARD"@, "-i"@, zt, "-o"@, phy, "-j"@, "ACCEPT"@],
    });
    reveal_strlit("POSTROUTING");
    reveal_strlit("FORWARD");
    reveal_strlit("-A");
    reveal_strlit("iptables");
    reveal_strlit("netfilter-persistent");
    reveal_strlit("sh");
    assert forall|i: int| 0 <= i < a.len() implies (#[trigger] a[i].action matches ActionView::Run { program, args }
        ==> (program == "iptables"@ && args.len() == 8 && args[3] == "POSTROUTING"@ ==> args[5] == phy)) by {
        if i >= 5 {
            assert(a[i] == persist_spec(tools)[i - 5]);
        }
    }
    let d = routing_rules(cfg.zt_iface@, cfg.phy_iface@, "-D"@, OnFailure::Ignore);
    assert(d[0].action == ActionView::Run {
        program: "iptables"@,
        args: seq!["-t"@, "nat"@, "-D"@, "POSTROUTING"@, "-o"@, cfg.phy_iface@, "-j"@, "MASQUERADE"@],
    });
}

} // verus!
