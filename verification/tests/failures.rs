use ztnet_box::bridge::rules::{apply as bridge_apply, step_error as bridge_error};
use ztnet_box::bridge::rules::BridgeError;
use ztnet_box::bridge::BridgeConfig;
use ztnet_box::command::{progress, Action, OnFailure, Progress, Step, StepFailure};
use ztnet_box::exitnode::ndp::{enable as ndp_enable, step_error as ndp_error, NdpConfig, NdpError};
use ztnet_box::exitnode::rules::{step_error, ExitNodeRules, FirewallBackend, PersistTools, RulesError};

fn run(program: &str, args: &[&str]) -> Step {
    Step {
        action: Action::Run { program: program.into(), args: args.iter().map(|a| a.to_string()).collect() },
        on_failure: OnFailure::Abort,
    }
}

#[test]
fn exit_node_failures_keep_their_kind() {
    let write = Step {
        action: Action::Write { path: "/proc/sys/net/ipv4/ip_forward".into(), content: "1\n".into() },
        on_failure: OnFailure::Abort,
    };
    match step_error(&write, StepFailure::File("Permission denied (os error 13)".into())) {
        RulesError::Io(m) => assert_eq!(m, "Permission denied (os error 13)"),
        other => panic!("unexpected {other:?}"),
    }
    match step_error(&run("iptables", &["-t", "nat"]), StepFailure::Exit("exit status: 1".into())) {
        RulesError::Command(m) => assert_eq!(m, "iptables [\"-t\", \"nat\"] exited with exit status: 1"),
        other => panic!("unexpected {other:?}"),
    }
    match step_error(&run("netfilter-persistent", &["save"]), StepFailure::Exit("exit status: 2".into())) {
        RulesError::Command(m) => assert_eq!(m, "netfilter-persistent exited with exit status: 2"),
        other => panic!("unexpected {other:?}"),
    }
    let r = ExitNodeRules::new("zt0".into(), "eth0".into(), FirewallBackend::Nftables);
    let p = r.persist_rules(PersistTools { netfilter_persistent: false, iptables_save: false }).unwrap();
    match step_error(&p[0], StepFailure::Exit("exit status: 1".into())) {
        RulesError::Command(m) => assert_eq!(m, "nft list ruleset failed"),
        other => panic!("unexpected {other:?}"),
    }
    match step_error(&p[0], StepFailure::Spawn("No such file or directory (os error 2)".into())) {
        RulesError::Command(m) => assert_eq!(m, "nft list ruleset: No such file or directory (os error 2)"),
        other => panic!("unexpected {other:?}"),
    }
    match step_error(&p[0], StepFailure::File("Read-only file system (os error 30)".into())) {
        RulesError::Io(m) => assert_eq!(m, "Read-only file system (os error 30)"),
        other => panic!("unexpected {other:?}"),
    }
    let a = r.apply(PersistTools { netfilter_persistent: false, iptables_save: false });
    match step_error(&a[3], StepFailure::Input("Broken pipe (os error 32)".into())) {
        RulesError::Command(m) => assert_eq!(m, "nft stdin write: Broken pipe (os error 32)"),
        other => panic!("unexpected {other:?}"),
    }
}

#[test]
fn ndp_enable_failure_is_the_systemctl_command() {
    let cfg = NdpConfig { wan_iface: "eth0".into(), zt_prefix: "zt".into(), ipv6_prefix: "2001:db8::/64".into() };
    let steps = ndp_enable(&cfg, "linux").unwrap();
    match &steps[0].action {
        Action::Write { path, content } => {
            assert_eq!(path, "/etc/ndppd.conf");
            assert_eq!(content, "# Generated by ztnet-box\nproxy eth0 {\n\trule 2001:db8::/64 {\n\t\tiface zt+\n\t}\n}\n");
        }
        other => panic!("unexpected {other:?}"),
    }
    match ndp_error(&steps[2], StepFailure::Exit("exit status: 1".into())) {
        NdpError::Command(m) => assert_eq!(m, "systemctl enable --now ndppd failed"),
        other => panic!("unexpected {other:?}"),
    }
    assert_eq!(progress(&steps, 2, false), Progress::Failed);
    assert_eq!(progress(&steps, 1, false), Progress::Next(2));
    assert_eq!(progress(&steps, 2, true), Progress::Done);
}

#[test]
fn bridge_ip_failures_are_command_errors() {
    let cfg = BridgeConfig {
        zt_iface: "zt0".into(),
        phy_iface: "eth0".into(),
        bridge_iface: "br0".into(),
        bridge_addr: None,
        gateway: None,
        network_id: "8056c2e21c000001".into(),
    };
    let steps = bridge_apply(&cfg, "linux").unwrap();
    let set = steps.iter().position(|s| matches!(&s.action, Action::Run { args, .. } if args.first().map(|a| a == "link").unwrap_or(false) && args.get(1).map(|a| a == "set").unwrap_or(false))).unwrap();
    match bridge_error(&steps[set], StepFailure::Exit("exit status: 2".into())) {
        BridgeError::Command(m) => assert!(m.starts_with("ip [\"link\", \"set\"") && m.ends_with("exited with exit status: 2")),
        other => panic!("unexpected {other:?}"),
    }
    assert_eq!(progress(&steps, set, false), Progress::Failed);
    match bridge_error(&run("ip", &["link"]), StepFailure::Spawn("boom".into())) {
        BridgeError::Command(m) => assert_eq!(m, "ip spawn: boom"),
        other => panic!("unexpected {other:?}"),
    }
}
