//! Firewall rules that turn the host into a ZeroTier exit node.
//!
//! The plans here are those of a Linux host, the only platform on which the
//! exit node is offered.
use crate::command::{
    command_failure, command_failure_text, failure_text, io_failure, is_io_failure, runs_program, StepFailure,
    file_write, run, step_views, string_views, strings, sysctl, sysctl_step, write_step, Action, ActionView, OnFailure,
    Step, StepView,
};
use crate::sysctl::SysctlMode;
use crate::text::{push_str, string_of};
use vstd::prelude::*;

verus! {

/// The firewall tool that carries the rules.
#[derive(Debug, Clone, Copy, PartialEq, Eq, Structural)]
pub enum FirewallBackend {
    Nftables,
    Iptables,
}

/// Why applying or removing the rules failed.
#[derive(Debug, Clone)]
pub enum RulesError {
    Unsupported,
    /// A command could not be started or did not succeed.
    Command(String),
    /// A file could not be read or written.
    Io(String),
}

impl RulesError {
    /// The human-readable description of the error.
    pub open spec fn message_spec(&self) -> Seq<char> {
        match self {
            RulesError::Unsupported => "Unsupported firewall backend"@,
            RulesError::Command(m) => "Command failed: "@ + m@,
            RulesError::Io(m) => "IO error: "@ + m@,
        }
    }

    /// The human-readable description of the error (what `Display` shows).
    pub fn message(&self) -> (r: String)
        ensures
            r@ == self.message_spec(),
    {
        match self {
            RulesError::Unsupported => "Unsupported firewall backend".to_owned(),
            RulesError::Command(m) => {
                let mut b = crate::text::lit("Command failed: ");
                push_str(&mut b, m.as_str());
                string_of(&b)
            },
            RulesError::Io(m) => {
                let mut b = crate::text::lit("IO error: ");
                push_str(&mut b, m.as_str());
                string_of(&b)
            },
        }
    }
}

/// The exit-node rule set for one ZeroTier interface and one WAN interface.
#[derive(Debug, Clone)]
pub struct ExitNodeRules {
    pub zt_iface: String,
    pub wan_iface: String,
    pub backend: FirewallBackend,
    /// Enable IPv6 forwarding and ip6tables rules.
    pub enable_ipv6: bool,
    /// IPv6 prefix for ZT clients, e.g. "2001:db8::/64".
    /// When None and enable_ipv6=true, a wildcard rule is used.
    pub ipv6_prefix: Option<String>,
}

/// Which rule-persistence tools the host has.
#[derive(Debug, Clone, Copy)]
pub struct PersistTools {
    /// `netfilter-persistent` is on the PATH.
    pub netfilter_persistent: bool,
    /// `iptables-save` is on the PATH.
    pub iptables_save: bool,
}

// ── Specification ────────────────────────────────────────────────────────────

/// The nftables ruleset of the exit node.
pub open spec fn nft_ruleset(zt: Seq<char>, wan: Seq<char>) -> Seq<char> {
    "table ip ztnet_exit {\n\tchain postrouting {\n\t\ttype nat hook postrouting priority srcnat; policy accept;\n\t\tiifname \""@
        + zt + "\" oifname \""@ + wan
        + "\" masquerade\n\t}\n\tchain forward {\n\t\ttype filter hook forward priority filter; policy accept;\n\t\tiifname \""@
        + zt + "\" oifname \""@ + wan + "\" accept\n\t\tiifname \""@ + wan + "\" oifname \""@ + zt
        + "\" ct state established,related accept\n\t}\n}"@
}

/// The step that feeds `input` to `nft -f -`.
pub open spec fn nft_feed(input: Seq<char>, f: OnFailure) -> StepView {
    StepView {
        action: ActionView::Feed { program: "nft"@, args: seq!["-f"@, "-"@], input },
        on_failure: f,
    }
}

/// The three iptables rules, added (`op` = "-A") or deleted (`op` = "-D").
pub open spec fn iptables_rules(zt: Seq<char>, wan: Seq<char>, op: Seq<char>, f: OnFailure) -> Seq<StepView> {
    seq![
        run("iptables"@, seq!["-t"@, "nat"@, op, "POSTROUTING"@, "-i"@, zt, "-o"@, wan, "-j"@, "MASQUERADE"@], f),
        run("iptables"@, seq![op, "FORWARD"@, "-i"@, zt, "-o"@, wan, "-j"@, "ACCEPT"@], f),
        run("iptables"@, seq![op, "FORWARD"@, "-i"@, wan, "-o"@, zt, "-m"@, "state"@, "--state"@, "ESTABLISHED,RELATED"@, "-j"@, "ACCEPT"@], f),
    ]
}

/// The three ip6tables rules, added (`op` = "-A") or deleted (`op` = "-D").
pub open spec fn ip6tables_rules(zt: Seq<char>, wan: Seq<char>, prefix: Option<Seq<char>>, op: Seq<char>, f: OnFailure) -> Seq<StepView> {
    seq![
        match prefix {
            Some(p) => run("ip6tables"@, seq![op, "FORWARD"@, "-i"@, zt, "-s"@, p, "-j"@, "ACCEPT"@], f),
            None => run("ip6tables"@, seq![op, "FORWARD"@, "-i"@, zt, "-j"@, "ACCEPT"@], f),
        },
        run("ip6tables"@, seq![op, "FORWARD"@, "-m"@, "state"@, "--state"@, "ESTABLISHED,RELATED"@, "-j"@, "ACCEPT"@], f),
        run("ip6tables"@, seq!["-t"@, "nat"@, op, "POSTROUTING"@, "-o"@, wan, "-j"@, "MASQUERADE"@], f),
    ]
}

/// The steps that save the rules across reboots, failing as `f` says;
/// `None` when the backend is iptables and neither tool is there.
pub open spec fn persist_spec(backend: FirewallBackend, tools: PersistTools, f: OnFailure) -> Option<Seq<StepView>> {
    match backend {
        FirewallBackend::Iptables => if tools.netfilter_persistent {
            Some(seq![run("netfilter-persistent"@, seq!["save"@], f)])
        } else if tools.iptables_save {
            Some(seq![StepView {
                action: ActionView::Save { program: "iptables-save"@, args: seq![], path: "/etc/iptables/rules.v4"@ },
                on_failure: f,
            }])
        } else {
            None
        },
        FirewallBackend::Nftables => Some(seq![
            StepView {
                action: ActionView::Save { program: "nft"@, args: seq!["list"@, "ruleset"@], path: "/etc/nftables.conf"@ },
                on_failure: f,
            },
            run("systemctl"@, seq!["enable"@, "nftables"@], OnFailure::Ignore),
        ]),
    }
}

impl ExitNodeRules {
    /// The steps that add the backend's rules.
    pub open spec fn backend_rules_spec(&self) -> Seq<StepView> {
        match self.backend {
            FirewallBackend::Nftables => seq![nft_feed(nft_ruleset(self.zt_iface@, self.wan_iface@), OnFailure::Abort)],
            FirewallBackend::Iptables => iptables_rules(self.zt_iface@, self.wan_iface@, "-A"@, OnFailure::Abort),
        }
    }

    pub open spec fn prefix_view(&self) -> Option<Seq<char>> {
        match self.ipv6_prefix {
            Some(p) => Some(p@),
            None => None,
        }
    }

    /// The steps of `apply`, in the documented order: IPv4 forwarding on (and
    /// IPv6 forwarding, at runtime and in sysctl.conf, when enabled), loose
    /// reverse-path filtering, the backend's rules, the IPv6 rules when
    /// enabled, then persistence, whose failure ends the plan without an
    /// error.
    pub open spec fn apply_spec(&self, tools: PersistTools) -> Seq<StepView> {
        let v6_forward = if self.enable_ipv6 {
            seq![
                file_write("/proc/sys/net/ipv6/conf/all/forwarding"@, "1\n"@, OnFailure::Abort),
                sysctl("net.ipv6.conf.all.forwarding"@, "1"@, SysctlMode::Assign, OnFailure::Abort),
            ]
        } else {
            seq![]
        };
        let v6_rules = if self.enable_ipv6 {
            ip6tables_rules(self.zt_iface@, self.wan_iface@, self.prefix_view(), "-A"@, OnFailure::Abort)
        } else {
            seq![]
        };
        let persist = match persist_spec(self.backend, tools, OnFailure::Stop) {
            Some(p) => p,
            None => seq![],
        };
        seq![file_write("/proc/sys/net/ipv4/ip_forward"@, "1\n"@, OnFailure::Abort)] + v6_forward + seq![
            file_write("/proc/sys/net/ipv4/conf/all/rp_filter"@, "2\n"@, OnFailure::Abort),
            sysctl("net.ipv4.conf.all.rp_filter"@, "2"@, SysctlMode::Assign, OnFailure::Abort),
        ] + self.backend_rules_spec() + v6_rules + persist
    }

    /// The number of steps of `apply` before the backend's rules.
    pub open spec fn apply_head_len(&self) -> int {
        if self.enable_ipv6 { 5 } else { 3 }
    }

    /// The steps of `remove`: the IPv6 rules when enabled, then the backend's.
    /// Forwarding stays on, as other services may depend on it.
    pub open spec fn remove_spec(&self) -> Seq<StepView> {
        let v6 = if self.enable_ipv6 {
            ip6tables_rules(self.zt_iface@, self.wan_iface@, self.prefix_view(), "-D"@, OnFailure::Ignore)
        } else {
            seq![]
        };
        v6 + match self.backend {
            FirewallBackend::Nftables => seq![nft_feed("delete table ip ztnet_exit"@, OnFailure::Abort)],
            FirewallBackend::Iptables => iptables_rules(self.zt_iface@, self.wan_iface@, "-D"@, OnFailure::Ignore),
        }
    }

    // ── Construction ─────────────────────────────────────────────────────────

    pub fn new(zt_iface: String, wan_iface: String, backend: FirewallBackend) -> (r: Self)
        ensures
            r.zt_iface == zt_iface,
            r.wan_iface == wan_iface,
            r.backend == backend,
            !r.enable_ipv6,
            r.ipv6_prefix.is_none(),
    {
        ExitNodeRules { zt_iface, wan_iface, backend, enable_ipv6: false, ipv6_prefix: None }
    }

    pub fn with_ipv6(self, enable: bool, prefix: Option<String>) -> (r: Self)
        ensures
            r.zt_iface == self.zt_iface,
            r.wan_iface == self.wan_iface,
            r.backend == self.backend,
            r.enable_ipv6 == enable,
            r.ipv6_prefix == prefix,
    {
        let mut s = self;
        s.enable_ipv6 = enable;
        s.ipv6_prefix = prefix;
        s
    }

    // ── Plans ────────────────────────────────────────────────────────────────

    /// The nftables ruleset of this exit node.
    pub fn nft_ruleset(&self) -> (r: String)
        ensures
            r@ == nft_ruleset(self.zt_iface@, self.wan_iface@),
    {
        let zt = self.zt_iface.as_str();
        let wan = self.wan_iface.as_str();
        let mut b = crate::text::lit(
            "table ip ztnet_exit {\n\tchain postrouting {\n\t\ttype nat hook postrouting priority srcnat; policy accept;\n\t\tiifname \"",
        );
        push_str(&mut b, zt);
        push_str(&mut b, "\" oifname \"");
        push_str(&mut b, wan);
        push_str(
            &mut b,
            "\" masquerade\n\t}\n\tchain forward {\n\t\ttype filter hook forward priority filter; policy accept;\n\t\tiifname \"",
        );
        push_str(&mut b, zt);
        push_str(&mut b, "\" oifname \"");
        push_str(&mut b, wan);
        push_str(&mut b, "\" accept\n\t\tiifname \"");
        push_str(&mut b, wan);
        push_str(&mut b, "\" oifname \"");
        push_str(&mut b, zt);
        push_str(&mut b, "\" ct state established,related accept\n\t}\n}");
        string_of(&b)
    }

    fn run_owned(program: &str, args: Vec<String>, f: OnFailure) -> (r: Step)
        ensures
            r@ == run(program@, string_views(args@), f),
    {
        Step { action: Action::Run { program: program.to_owned(), args }, on_failure: f }
    }

    fn nft_feed_step(input: String, f: OnFailure) -> (r: Step)
        ensures
            r@ == nft_feed(input@, f),
    {
        let args = strings(&["-f", "-"]);
        assert(string_views(args@) =~= seq!["-f"@, "-"@]);
        Step { action: Action::Feed { program: "nft".to_owned(), args, input }, on_failure: f }
    }

    fn iptables_steps(&self, op: &str, f: OnFailure) -> (r: Vec<Step>)
        ensures
            step_views(r@) == iptables_rules(self.zt_iface@, self.wan_iface@, op@, f),
    {
        let zt = self.zt_iface.as_str();
        let wan = self.wan_iface.as_str();
        let mut r: Vec<Step> = Vec::new();
        let a = strings(&["-t", "nat", op, "POSTROUTING", "-i", zt, "-o", wan, "-j", "MASQUERADE"]);
        assert(string_views(a@) =~= seq!["-t"@, "nat"@, op@, "POSTROUTING"@, "-i"@, zt@, "-o"@, wan@, "-j"@, "MASQUERADE"@]);
        let s0 = Self::run_owned("iptables", a, f);
        let b = strings(&[op, "FORWARD", "-i", zt, "-o", wan, "-j", "ACCEPT"]);
        assert(string_views(b@) =~= seq![op@, "FORWARD"@, "-i"@, zt@, "-o"@, wan@, "-j"@, "ACCEPT"@]);
        let s1 = Self::run_owned("iptables", b, f);
        let c = strings(
            &[op, "FORWARD", "-i", wan, "-o", zt, "-m", "state", "--state", "ESTABLISHED,RELATED", "-j", "ACCEPT"],
        );
        assert(string_views(c@) =~= seq![op@, "FORWARD"@, "-i"@, wan@, "-o"@, zt@, "-m"@, "state"@, "--state"@, "ESTABLISHED,RELATED"@, "-j"@, "ACCEPT"@]);
        let s2 = Self::run_owned("iptables", c, f);
        let ghost v0 = s0@;
        let ghost v1 = s1@;
        let ghost v2 = s2@;
        r.push(s0);
        r.push(s1);
        r.push(s2);
        let ghost want = iptables_rules(self.zt_iface@, self.wan_iface@, op@, f);
        assert(v0 == want[0]);
        assert(v1 == want[1]);
        assert(v2 == want[2]);
        assert(step_views(r@) =~= want);
        r
    }

    fn ip6tables_steps(&self, op: &str, f: OnFailure) -> (r: Vec<Step>)
        ensures
            step_views(r@) == ip6tables_rules(self.zt_iface@, self.wan_iface@, self.prefix_view(), op@, f),
    {
        let zt = self.zt_iface.as_str();
        let wan = self.wan_iface.as_str();
        let ghost want = ip6tables_rules(self.zt_iface@, self.wan_iface@, self.prefix_view(), op@, f);
        let mut r: Vec<Step> = Vec::new();
        let a = match &self.ipv6_prefix {
            Some(prefix) => {
                let a = strings(&[op, "FORWARD", "-i", zt, "-s", prefix.as_str(), "-j", "ACCEPT"]);
                assert(string_views(a@) =~= seq![op@, "FORWARD"@, "-i"@, zt@, "-s"@, prefix@, "-j"@, "ACCEPT"@]);
                a
            },
            None => {
                let a = strings(&[op, "FORWARD", "-i", zt, "-j", "ACCEPT"]);
                assert(string_views(a@) =~= seq![op@, "FORWARD"@, "-i"@, zt@, "-j"@, "ACCEPT"@]);
                a
            },
        };
        let s0 = Self::run_owned("ip6tables", a, f);
        let b = strings(&[op, "FORWARD", "-m", "state", "--state", "ESTABLISHED,RELATED", "-j", "ACCEPT"]);
        assert(string_views(b@) =~= seq![op@, "FORWARD"@, "-m"@, "state"@, "--state"@, "ESTABLISHED,RELATED"@, "-j"@, "ACCEPT"@]);
        let s1 = Self::run_owned("ip6tables", b, f);
        let c = strings(&["-t", "nat", op, "POSTROUTING", "-o", wan, "-j", "MASQUERADE"]);
        assert(string_views(c@) =~= seq!["-t"@, "nat"@, op@, "POSTROUTING"@, "-o"@, wan@, "-j"@, "MASQUERADE"@]);
        let s2 = Self::run_owned("ip6tables", c, f);
        let ghost v0 = s0@;
        let ghost v1 = s1@;
        let ghost v2 = s2@;
        r.push(s0);
        r.push(s1);
        r.push(s2);
        assert(v0 == want[0]);
        assert(v1 == want[1]);
        assert(v2 == want[2]);
        assert(step_views(r@) =~= want);
        r
    }

    /// The steps that add the ip6tables stateful forwarding rules.
    pub fn apply_ipv6_forwarding(&self) -> (r: Vec<Step>)
        ensures
            step_views(r@) == ip6tables_rules(self.zt_iface@, self.wan_iface@, self.prefix_view(), "-A"@, OnFailure::Abort),
    {
        self.ip6tables_steps("-A", OnFailure::Abort)
    }

    /// The steps that delete the rules `apply_ipv6_forwarding` added; their
    /// failures are ignored.
    pub fn remove_ipv6_rules(&self) -> (r: Vec<Step>)
        ensures
            step_views(r@) == ip6tables_rules(self.zt_iface@, self.wan_iface@, self.prefix_view(), "-D"@, OnFailure::Ignore),
    {
        self.ip6tables_steps("-D", OnFailure::Ignore)
    }

    fn persist_steps(&self, tools: PersistTools, f: OnFailure) -> (r: Option<Vec<Step>>)
        ensures
            match persist_spec(self.backend, tools, f) {
                Some(p) => r.is_some() && step_views(r.unwrap()@) == p,
                None => r.is_none(),
            },
    {
        let mut v: Vec<Step> = Vec::new();
        match self.backend {
            FirewallBackend::Iptables => {
                if tools.netfilter_persistent {
                    let a = strings(&["save"]);
                    assert(string_views(a@) =~= seq!["save"@]);
                    let s = Self::run_owned("netfilter-persistent", a, f);
                    let ghost sv = s@;
                    v.push(s);
                    assert(step_views(v@) =~= seq![sv]);
                } else if tools.iptables_save {
                    let s = Step {
                        action: Action::Save {
                            program: "iptables-save".to_owned(),
                            args: Vec::new(),
                            path: "/etc/iptables/rules.v4".to_owned(),
                        },
                        on_failure: f,
                    };
                    let ghost sv = s@;
                    assert(string_views(Seq::<String>::empty()) =~= Seq::<Seq<char>>::empty());
                    v.push(s);
                    assert(step_views(v@) =~= seq![sv]);
                } else {
                    return None;
                }
            },
            FirewallBackend::Nftables => {
                let a = strings(&["list", "ruleset"]);
                assert(string_views(a@) =~= seq!["list"@, "ruleset"@]);
                let s0 = Step {
                    action: Action::Save {
                        program: "nft".to_owned(),
                        args: a,
                        path: "/etc/nftables.conf".to_owned(),
                    },
                    on_failure: f,
                };
                let b = strings(&["enable", "nftables"]);
                assert(string_views(b@) =~= seq!["enable"@, "nftables"@]);
                let s1 = Self::run_owned("systemctl", b, OnFailure::Ignore);
                let ghost v0 = s0@;
                let ghost v1 = s1@;
                v.push(s0);
                v.push(s1);
                assert(step_views(v@) =~= seq![v0, v1]);
            },
        }
        Some(v)
    }

    /// The steps that save the current rules so that they survive a reboot:
    /// `netfilter-persistent save`, else `iptables-save` into
    /// /etc/iptables/rules.v4; for nftables, `nft list ruleset` into
    /// /etc/nftables.conf and the nftables service enabled.
    pub fn persist_rules(&self, tools: PersistTools) -> (r: Result<Vec<Step>, RulesError>)
        ensures
            match persist_spec(self.backend, tools, OnFailure::Abort) {
                Some(p) => r is Ok && step_views(r->Ok_0@) == p,
                None => r matches Err(RulesError::Command(m))
                    && m@ == "neither netfilter-persistent nor iptables-save found"@,
            },
    {
        match self.persist_steps(tools, OnFailure::Abort) {
            Some(v) => Ok(v),
            None => Err(RulesError::Command("neither netfilter-persistent nor iptables-save found".to_owned())),
        }
    }

    /// The steps that enable the exit node.
    pub fn apply(&self, tools: PersistTools) -> (r: Vec<Step>)
        ensures
            step_views(r@) == self.apply_spec(tools),
    {
        let mut r: Vec<Step> = Vec::new();
        r.push(write_step("/proc/sys/net/ipv4/ip_forward", "1\n", OnFailure::Abort));
        if self.enable_ipv6 {
            r.push(write_step("/proc/sys/net/ipv6/conf/all/forwarding", "1\n", OnFailure::Abort));
            r.push(sysctl_step("net.ipv6.conf.all.forwarding", "1", SysctlMode::Assign, OnFailure::Abort));
        }
        r.push(write_step("/proc/sys/net/ipv4/conf/all/rp_filter", "2\n", OnFailure::Abort));
        r.push(sysctl_step("net.ipv4.conf.all.rp_filter", "2", SysctlMode::Assign, OnFailure::Abort));
        let ghost head = step_views(r@);
        let mut rules = match self.backend {
            FirewallBackend::Nftables => {
                let s = Self::nft_feed_step(self.nft_ruleset(), OnFailure::Abort);
                let mut v: Vec<Step> = Vec::new();
                let ghost sv = s@;
                v.push(s);
                assert(step_views(v@) =~= seq![sv]);
                v
            },
            FirewallBackend::Iptables => self.iptables_steps("-A", OnFailure::Abort),
        };
        let ghost rv = step_views(rules@);
        r.append(&mut rules);
        assert(step_views(r@) =~= head + rv);
        let ghost with_rules = step_views(r@);
        if self.enable_ipv6 {
            let mut v6 = self.ip6tables_steps("-A", OnFailure::Abort);
            let ghost v6v = step_views(v6@);
            r.append(&mut v6);
            assert(step_views(r@) =~= with_rules + v6v);
        } else {
            assert(with_rules + seq![] =~= with_rules);
        }
        let ghost with_v6 = step_views(r@);
        match self.persist_steps(tools, OnFailure::Stop) {
            Some(mut p) => {
                let ghost pv = step_views(p@);
                r.append(&mut p);
                assert(step_views(r@) =~= with_v6 + pv);
            },
            None => {
                assert(with_v6 + seq![] =~= with_v6);
            },
        }
        proof {
            let v4 = seq![file_write("/proc/sys/net/ipv4/ip_forward"@, "1\n"@, OnFailure::Abort)];
            let rp = seq![
                file_write("/proc/sys/net/ipv4/conf/all/rp_filter"@, "2\n"@, OnFailure::Abort),
                sysctl("net.ipv4.conf.all.rp_filter"@, "2"@, SysctlMode::Assign, OnFailure::Abort),
            ];
            if self.enable_ipv6 {
                let fw = seq![
                    file_write("/proc/sys/net/ipv6/conf/all/forwarding"@, "1\n"@, OnFailure::Abort),
                    sysctl("net.ipv6.conf.all.forwarding"@, "1"@, SysctlMode::Assign, OnFailure::Abort),
                ];
                assert(head =~= v4 + fw + rp);
            } else {
                assert(head =~= v4 + seq![] + rp);
            }
            assert(step_views(r@) =~= self.apply_spec(tools));
        }
        r
    }

    /// The steps that disable the exit node.
    pub fn remove(&self) -> (r: Vec<Step>)
        ensures
            step_views(r@) == self.remove_spec(),
    {
        let mut r: Vec<Step> = if self.enable_ipv6 {
            self.ip6tables_steps("-D", OnFailure::Ignore)
        } else {
            Vec::new()
        };
        let ghost first = step_views(r@);
        let mut rest = match self.backend {
            FirewallBackend::Nftables => {
                let s = Self::nft_feed_step("delete table ip ztnet_exit".to_owned(), OnFailure::Abort);
                let mut v: Vec<Step> = Vec::new();
                let ghost sv = s@;
                v.push(s);
                assert(step_views(v@) =~= seq![sv]);
                v
            },
            FirewallBackend::Iptables => self.iptables_steps("-D", OnFailure::Ignore),
        };
        let ghost restv = step_views(rest@);
        r.append(&mut rest);
        assert(step_views(r@) =~= first + restv);
        r
    }
}

// ── Failures ─────────────────────────────────────────────────────────────────

/// The programs whose failed runs are reported with their arguments.
pub open spec fn shows_args(a: ActionView) -> bool {
    a matches ActionView::Run { program, .. } && (program == "iptables"@ || program == "ip6tables"@)
}

/// The error of a failed step of these plans: a file failure is an I/O
/// error with its text; a command failure is a command error reported as
/// `command_failure_text` says (with the arguments for iptables and
/// ip6tables).
pub fn step_error(step: &Step, failure: StepFailure) -> (r: RulesError)
    ensures
        is_io_failure(step.action@, failure) ==> (r matches RulesError::Io(m) && m@ == failure_text(failure)),
        !is_io_failure(step.action@, failure) ==> (r matches RulesError::Command(m) && m@ == command_failure_text(
            step.action@,
            failure,
            shows_args(step.action@),
            " exited with "@,
        )),
{
    let shows = runs_program(&step.action, "iptables") || runs_program(&step.action, "ip6tables");
    let m = command_failure(&step.action, &failure, shows, " exited with ");
    if io_failure(&step.action, &failure) {
        match &failure {
            StepFailure::File(e) => RulesError::Io(e.clone()),
            _ => RulesError::Io(m),
        }
    } else {
        RulesError::Command(m)
    }
}

// ── Laws ─────────────────────────────────────────────────────────────────────

/// `remove` deletes every rule that `apply` adds. With iptables, the IPv6
/// rules and then the IPv4 ones are the very rules `apply` appended (`-A`),
/// now deleted (`-D`), failures ignored; with nftables, `remove` deletes the
/// table that `apply`'s ruleset creates.
pub proof fn lemma_remove_undoes_apply(r: ExitNodeRules, tools: PersistTools)
    ensures
        ({
            let a = r.apply_spec(tools);
            let d = r.remove_spec();
            let zt = r.zt_iface@;
            let wan = r.wan_iface@;
            let h = r.apply_head_len();
            let b: int = r.backend_rules_spec().len() as int;
            let n6: int = if r.enable_ipv6 { 3 } else { 0 };
            &&& r.enable_ipv6 ==> {
                &&& a.subrange(h + b, h + b + 3) == ip6tables_rules(zt, wan, r.prefix_view(), "-A"@, OnFailure::Abort)
                &&& d.take(3) == ip6tables_rules(zt, wan, r.prefix_view(), "-D"@, OnFailure::Ignore)
            }
            &&& r.backend == FirewallBackend::Iptables ==> {
                &&& a.subrange(h, h + 3) == iptables_rules(zt, wan, "-A"@, OnFailure::Abort)
                &&& d.skip(n6) == iptables_rules(zt, wan, "-D"@, OnFailure::Ignore)
            }
            &&& r.backend == FirewallBackend::Nftables ==> {
                &&& a[h] == nft_feed(nft_ruleset(zt, wan), OnFailure::Abort)
                &&& nft_ruleset(zt, wan).take(19) == "table ip ztnet_exit"@
                &&& d.skip(n6) == seq![nft_feed("delete "@ + "table ip ztnet_exit"@, OnFailure::Abort)]
            }
        }),
{
    let a = r.apply_spec(tools);
    let d = r.remove_spec();
    let zt = r.zt_iface@;
    let wan = r.wan_iface@;
    let h = r.apply_head_len();
    let b: int = r.backend_rules_spec().len() as int;
    let n6: int = if r.enable_ipv6 { 3 } else { 0 };
    if r.enable_ipv6 {
        assert(a.subrange(h + b, h + b + 3) =~= ip6tables_rules(zt, wan, r.prefix_view(), "-A"@, OnFailure::Abort));
        assert(d.take(3) =~= ip6tables_rules(zt, wan, r.prefix_view(), "-D"@, OnFailure::Ignore));
    }
    if r.backend == FirewallBackend::Iptables {
        assert(a.subrange(h, h + 3) =~= iptables_rules(zt, wan, "-A"@, OnFailure::Abort));
        assert(d.skip(n6) =~= iptables_rules(zt, wan, "-D"@, OnFailure::Ignore));
    }
    if r.backend == FirewallBackend::Nftables {
        reveal_strlit("table ip ztnet_exit {\n\tchain postrouting {\n\t\ttype nat hook postrouting priority srcnat; policy accept;\n\t\tiifname \"");
        reveal_strlit("table ip ztnet_exit");
        reveal_strlit("delete table ip ztnet_exit");
        reveal_strlit("delete ");
        assert(a[h] == nft_feed(nft_ruleset(zt, wan), OnFailure::Abort));
        assert(nft_ruleset(zt, wan).take(19) =~= "table ip ztnet_exit"@);
        assert("delete "@ + "table ip ztnet_exit"@ =~= "delete table ip ztnet_exit"@);
        assert(d.skip(n6) =~= seq![nft_feed("delete table ip ztnet_exit"@, OnFailure::Abort)]);
    }
}

/// The exit node masquerades out of its WAN interface: with IPv6 enabled,
/// `apply` adds `ip6tables -t nat -A POSTROUTING -o <wan> -j MASQUERADE`
/// (its failure ending the plan) and `remove` deletes that rule; with the
/// iptables backend, `apply` adds the IPv4 rule masquerading traffic from
/// the ZeroTier interface out of the WAN interface.
pub proof fn lemma_masquerade_out_of_wan(r: ExitNodeRules, tools: PersistTools)
    ensures
        r.enable_ipv6 ==> (exists|i: int| 0 <= i < r.apply_spec(tools).len() && r.apply_spec(tools)[i] == (StepView {
            action: ActionView::Run {
                program: "ip6tables"@,
                args: seq!["-t"@, "nat"@, "-A"@, "POSTROUTING"@, "-o"@, r.wan_iface@, "-j"@, "MASQUERADE"@],
            },
            on_failure: OnFailure::Abort,
        })),
        r.enable_ipv6 ==> (exists|i: int| 0 <= i < r.remove_spec().len() && r.remove_spec()[i].action == (ActionView::Run {
            program: "ip6tables"@,
            args: seq!["-t"@, "nat"@, "-D"@, "POSTROUTING"@, "-o"@, r.wan_iface@, "-j"@, "MASQUERADE"@],
        })),
        r.backend == FirewallBackend::Iptables ==> (exists|i: int| 0 <= i < r.apply_spec(tools).len()
            && r.apply_spec(tools)[i].action == (ActionView::Run {
            program: "iptables"@,
            args: seq!["-t"@, "nat"@, "-A"@, "POSTROUTING"@, "-i"@, r.zt_iface@, "-o"@, r.wan_iface@, "-j"@, "MASQUERADE"@],
        })),
{
    let a = r.apply_spec(tools);
    let d = r.remove_spec();
    let h = r.apply_head_len();
    let b: int = r.backend_rules_spec().len() as int;
    if r.enable_ipv6 {
        assert(a[h + b + 2] == StepView {
            action: ActionView::Run {
                program: "ip6tables"@,
                args: seq!["-t"@, "nat"@, "-A"@, "POSTROUTING"@, "-o"@, r.wan_iface@, "-j"@, "MASQUERADE"@],
            },
            on_failure: OnFailure::Abort,
        });
        assert(d[2].action == ActionView::Run {
            program: "ip6tables"@,
            args: seq!["-t"@, "nat"@, "-D"@, "POSTROUTING"@, "-o"@, r.wan_iface@, "-j"@, "MASQUERADE"@],
        });
    }
    if r.backend == FirewallBackend::Iptables {
        assert(a[h].action == ActionView::Run {
            program: "iptables"@,
            args: seq!["-t"@, "nat"@, "-A"@, "POSTROUTING"@, "-i"@, r.zt_iface@, "-o"@, r.wan_iface@, "-j"@, "MASQUERADE"@],
        });
    }
}

} // verus!
