use ztnet_box::command::{Action, Installer, OnFailure};
use ztnet_box::config::schema::ExitNodeConfig;
use ztnet_box::exitnode::deps::{check_deps, install_missing, DepsProbe};
use ztnet_box::exitnode::interfaces::{is_zerotier_iface, list_interfaces};
use ztnet_box::exitnode::manager::{select_backend, BackendTools, DisablePlan, ExitNodeManager};
use ztnet_box::exitnode::ndp::{enable, install, NdpConfig};
use ztnet_box::exitnode::platform::check;
use ztnet_box::exitnode::rules::{ExitNodeRules, FirewallBackend, PersistTools};
use ztnet_box::server::error::ApiError;

#[test]
fn list_does_not_panic() {
    let _ = list_interfaces(None, Vec::new());
}

#[test]
fn zerotier_detection() {
    assert!(is_zerotier_iface("zt3jh2bk1a"));
    assert!(!is_zerotier_iface("eth0"));
    assert!(!is_zerotier_iface("lo"));
    assert!(!is_zerotier_iface("zt")); // too short
}

#[test]
fn ndp_config_fields() {
    let c = NdpConfig {
        wan_iface: "eth0".into(),
        zt_prefix: "zt".into(),
        ipv6_prefix: "2001:db8::/64".into(),
    };
    assert_eq!(c.wan_iface, "eth0");
    assert_eq!(c.zt_prefix, "zt");
}

#[test]
fn install_returns_unsupported_on_non_linux() {
    let err = install("macos", Some(Installer::Apt)).unwrap_err();
    assert!(err.message().contains("Linux"));
}

#[test]
fn enable_returns_unsupported_on_non_linux() {
    let cfg = NdpConfig {
        wan_iface: "eth0".into(),
        zt_prefix: "zt".into(),
        ipv6_prefix: "2001:db8::/64".into(),
    };
    let err = enable(&cfg, "macos").unwrap_err();
    assert!(err.message().contains("Linux"));
}

#[test]
fn check_returns_result() {
    let p = check("linux");
    assert!(!p.os.is_empty());
    assert!(p.supported);
    let p = check("macos");
    assert!(!p.supported);
}

#[test]
fn rules_struct_creation() {
    let r = ExitNodeRules::new("zt3abc".into(), "eth0".into(), FirewallBackend::Nftables);
    assert_eq!(r.zt_iface, "zt3abc");
    assert_eq!(r.backend, FirewallBackend::Nftables);
    assert!(!r.enable_ipv6);
    assert!(r.ipv6_prefix.is_none());
}

#[test]
fn with_ipv6_builder() {
    let r = ExitNodeRules::new("zt3abc".into(), "eth0".into(), FirewallBackend::Iptables)
        .with_ipv6(true, Some("2001:db8::/64".into()));
    assert!(r.enable_ipv6);
    assert_eq!(r.ipv6_prefix.as_deref(), Some("2001:db8::/64"));
}

#[test]
fn with_ipv6_no_prefix() {
    let r = ExitNodeRules::new("zt3abc".into(), "eth0".into(), FirewallBackend::Iptables)
        .with_ipv6(true, None);
    assert!(r.enable_ipv6);
    assert!(r.ipv6_prefix.is_none());
}

#[test]
fn nftables_ruleset_contains_key_elements() {
    let r = ExitNodeRules::new("zt3abc123".into(), "eth0".into(), FirewallBackend::Nftables);
    let ruleset = format!(
        "table ip ztnet_exit {{ chain postrouting {{ \
         type nat hook postrouting priority srcnat; policy accept; \
         iifname \"{}\" oifname \"{}\" masquerade }} }}",
        r.zt_iface, r.wan_iface
    );
    assert!(ruleset.contains("zt3abc123"));
    assert!(ruleset.contains("eth0"));
    assert!(ruleset.contains("masquerade"));
    let real = r.nft_ruleset();
    assert!(real.contains("iifname \"zt3abc123\" oifname \"eth0\" masquerade"));
    assert!(real.starts_with("table ip ztnet_exit {"));
}

#[test]
fn ipv6_forward_disabled_by_default() {
    let r = ExitNodeRules::new("zt0".into(), "eth0".into(), FirewallBackend::Iptables);
    assert!(!r.enable_ipv6);
}

fn no_tools() -> PersistTools {
    PersistTools { netfilter_persistent: false, iptables_save: false }
}

#[test]
fn iptables_apply_plan() {
    let r = ExitNodeRules::new("zt0".into(), "eth0".into(), FirewallBackend::Iptables);
    let steps = r.apply(PersistTools { netfilter_persistent: true, iptables_save: true });
    assert_eq!(steps.len(), 7);
    match &steps[0].action {
        Action::Write { path, content } => {
            assert_eq!(path, "/proc/sys/net/ipv4/ip_forward");
            assert_eq!(content, "1\n");
        }
        _ => panic!(),
    }
    match &steps[3].action {
        Action::Run { program, args } => {
            assert_eq!(program, "iptables");
            assert_eq!(args, &vec!["-t", "nat", "-A", "POSTROUTING", "-i", "zt0", "-o", "eth0", "-j", "MASQUERADE"]);
        }
        _ => panic!(),
    }
    match &steps[6].action {
        Action::Run { program, args } => {
            assert_eq!(program, "netfilter-persistent");
            assert_eq!(args, &vec!["save"]);
        }
        _ => panic!(),
    }
    assert_eq!(steps[6].on_failure, OnFailure::Stop);
}

#[test]
fn remove_deletes_what_apply_added() {
    let r = ExitNodeRules::new("zt0".into(), "eth0".into(), FirewallBackend::Iptables)
        .with_ipv6(true, Some("2001:db8::/64".into()));
    let a = r.apply(no_tools());
    let d = r.remove();
    let added: Vec<(String, Vec<String>)> = a
        .iter()
        .filter_map(|s| match &s.action {
            Action::Run { program, args } => Some((program.clone(), args.clone())),
            _ => None,
        })
        .collect();
    let deleted: Vec<(String, Vec<String>)> = d
        .iter()
        .filter_map(|s| match &s.action {
            Action::Run { program, args } => Some((
                program.clone(),
                args.iter().map(|x| if x == "-D" { "-A".to_string() } else { x.clone() }).collect(),
            )),
            _ => None,
        })
        .collect();
    assert_eq!(added.len(), 6);
    assert_eq!(deleted.len(), 6);
    for x in &deleted {
        assert!(added.contains(x));
    }
}

#[test]
fn nftables_remove_deletes_table() {
    let r = ExitNodeRules::new("zt0".into(), "eth0".into(), FirewallBackend::Nftables);
    let d = r.remove();
    assert_eq!(d.len(), 1);
    match &d[0].action {
        Action::Feed { program, args, input } => {
            assert_eq!(program, "nft");
            assert_eq!(args, &vec!["-f", "-"]);
            assert_eq!(input, "delete table ip ztnet_exit");
        }
        _ => panic!(),
    }
}

#[test]
fn persist_rules_without_tools_fails() {
    let r = ExitNodeRules::new("zt0".into(), "eth0".into(), FirewallBackend::Iptables);
    match r.persist_rules(no_tools()) {
        Err(e) => assert_eq!(e.message(), "Command failed: neither netfilter-persistent nor iptables-save found"),
        Ok(_) => panic!(),
    }
    let r = ExitNodeRules::new("zt0".into(), "eth0".into(), FirewallBackend::Nftables);
    assert_eq!(r.persist_rules(no_tools()).unwrap().len(), 2);
}

#[test]
fn deps_missing_lists() {
    let p = DepsProbe {
        iptables: None,
        nftables: None,
        ip6tables: None,
        is_root: true,
        ip_forward: Some("0\n".into()),
        ipv6_forward: None,
        rp_filter: Some("1\n".into()),
        netfilter_persistent: false,
        iptables_save: false,
    };
    let d = check_deps(p);
    assert_eq!(d.missing.len(), 3);
    assert!(!d.rp_filter_ok);
    assert!(!d.ip_forward_enabled);
    assert!(!d.persist_available);
    let p = DepsProbe {
        iptables: Some("/usr/sbin/iptables".into()),
        nftables: None,
        ip6tables: None,
        is_root: true,
        ip_forward: Some(" 1\n".into()),
        ipv6_forward: Some("1".into()),
        rp_filter: Some("2\n".into()),
        netfilter_persistent: false,
        iptables_save: true,
    };
    let d = check_deps(p);
    assert!(d.missing.is_empty());
    assert!(d.ip_forward_enabled && d.ipv6_forward_enabled && d.rp_filter_ok && d.persist_available);
}

#[test]
fn install_missing_plan() {
    assert_eq!(install_missing(true, None).unwrap_err(), "No supported package manager found");
    let plan = install_missing(false, Some(Installer::Pacman)).unwrap();
    assert_eq!(plan.failure, "Failed to install iptables");
    match &plan.step.action {
        Action::Run { program, args } => {
            assert_eq!(program, "/usr/bin/pacman");
            assert_eq!(args, &vec!["-S", "--noconfirm", "iptables"]);
        }
        _ => panic!(),
    }
}

#[test]
fn interfaces_are_merged_and_sorted() {
    let dev = "Inter-|   Receive\n face |bytes\n    lo: 1 2\n  eth0: 3 4\nzt3abc: 5 6\n".to_string();
    let addrs = vec![
        ("eth0".to_string(), "192.168.1.2".to_string()),
        ("zt3abc".to_string(), "10.147.17.1".to_string()),
        ("eth0".to_string(), "fe80::1".to_string()),
        ("docker0".to_string(), "172.17.0.1".to_string()),
    ];
    let v = list_interfaces(Some(dev), addrs).unwrap();
    let names: Vec<&str> = v.iter().map(|i| i.name.as_str()).collect();
    assert_eq!(names, vec!["docker0", "eth0", "lo", "zt3abc"]);
    assert_eq!(v[1].addresses, vec!["192.168.1.2", "fe80::1"]);
    assert!(v[2].addresses.is_empty());
    assert!(v[3].is_zerotier);
    assert!(!v[1].is_zerotier);
}

#[test]
fn ndp_enable_plan() {
    let cfg = NdpConfig { wan_iface: "eth0".into(), zt_prefix: "zt".into(), ipv6_prefix: "2001:db8::/64".into() };
    let steps = enable(&cfg, "linux").unwrap();
    assert_eq!(steps.len(), 3);
    match &steps[0].action {
        Action::Write { path, content } => {
            assert_eq!(path, "/etc/ndppd.conf");
            assert_eq!(content, "# Generated by ztnet-box\nproxy eth0 {\n\trule 2001:db8::/64 {\n\t\tiface zt+\n\t}\n}\n");
        }
        _ => panic!(),
    }
}

#[test]
fn backend_selection() {
    assert_eq!(select_backend(true, BackendTools { nft: true, iptables: true }), FirewallBackend::Nftables);
    assert_eq!(select_backend(false, BackendTools { nft: true, iptables: true }), FirewallBackend::Iptables);
    assert_eq!(select_backend(false, BackendTools { nft: true, iptables: false }), FirewallBackend::Nftables);
    assert_eq!(select_backend(true, BackendTools { nft: false, iptables: false }), FirewallBackend::Iptables);
}

#[test]
fn manager_enable_then_disable_removes_same_rules() {
    let mut m = ExitNodeManager::new(ExitNodeConfig { nftables_preferred: true });
    let plat = check("linux");
    match m.plan_enable(false, &plat, BackendTools { nft: true, iptables: true }, "zt0".into(), "eth0".into(), false, None) {
        Err(ApiError::ExitNode(msg)) => assert_eq!(msg, "Root privileges required to configure firewall rules"),
        _ => panic!(),
    }
    let rules = m
        .plan_enable(true, &plat, BackendTools { nft: false, iptables: true }, "zt0".into(), "eth0".into(), true, None)
        .unwrap();
    assert_eq!(rules.backend, FirewallBackend::Iptables);
    let st = m.record_enabled(rules, "2024-01-01T00:00:00Z".into());
    assert!(st.enabled);
    match m.plan_disable(true).unwrap() {
        DisablePlan::Remove(Some(r)) => {
            assert_eq!(r.zt_iface, "zt0");
            assert_eq!(r.wan_iface, "eth0");
            assert!(r.enable_ipv6);
        }
        _ => panic!(),
    }
    m.record_disabled();
    assert!(matches!(m.plan_disable(true).unwrap(), DisablePlan::AlreadyDisabled));
    let mac = check("macos");
    match m.plan_enable(true, &mac, BackendTools { nft: true, iptables: true }, "zt0".into(), "eth0".into(), false, None) {
        Err(ApiError::ExitNode(msg)) => assert!(msg.contains("macOS is not supported")),
        _ => panic!(),
    }
}

#[test]
fn ipv6_forwarding_comes_before_any_firewall_rule() {
    let r = ExitNodeRules::new("zt0".into(), "eth0".into(), FirewallBackend::Nftables)
        .with_ipv6(true, None);
    let steps = r.apply(no_tools());
    match &steps[1].action {
        Action::Write { path, content } => {
            assert_eq!(path, "/proc/sys/net/ipv6/conf/all/forwarding");
            assert_eq!(content, "1\n");
        }
        other => panic!("unexpected {other:?}"),
    }
    assert!(matches!(&steps[2].action, Action::Sysctl { key, .. } if key == "net.ipv6.conf.all.forwarding"));
    assert!(steps[..5].iter().all(|s| !matches!(s.action, Action::Run { .. } | Action::Feed { .. })));
    assert!(matches!(&steps[5].action, Action::Feed { program, .. } if program == "nft"));
}

fn host_probe(iptables: bool, nftables: bool) -> DepsProbe {
    DepsProbe {
        iptables: if iptables { Some("/usr/sbin/iptables".into()) } else { None },
        nftables: if nftables { Some("/usr/sbin/nft".into()) } else { None },
        ip6tables: None,
        is_root: false,
        ip_forward: None,
        ipv6_forward: None,
        rp_filter: None,
        netfilter_persistent: false,
        iptables_save: false,
    }
}

#[test]
fn check_deps_does_not_panic() {
    for (a, b) in [(false, false), (true, false), (false, true), (true, true)] {
        let d = check_deps(host_probe(a, b));
        let _ = d.is_root;
        let _ = d.rp_filter_ok;
        let _ = d.persist_available;
    }
}

#[test]
fn missing_empty_when_tools_present() {
    for (a, b) in [(true, false), (false, true), (true, true)] {
        let d = check_deps(host_probe(a, b));
        assert!(d.iptables.is_some() || d.nftables.is_some());
        assert!(!d.missing.iter().any(|m| m.contains("iptables")));
    }
}
