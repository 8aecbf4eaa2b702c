use ztnet_box::bridge::deps::{check, install, BridgeProbe};
use ztnet_box::bridge::rules::{apply, remove};
use ztnet_box::bridge::BridgeConfig;
use ztnet_box::command::{Action, OnFailure};

fn cfg() -> BridgeConfig {
    BridgeConfig {
        zt_iface: "zt3abc".into(),
        phy_iface: "eth0".into(),
        bridge_iface: "br0".into(),
        bridge_addr: Some("192.168.1.10/24".into()),
        gateway: Some("192.168.1.1".into()),
        network_id: "a1b2c3d4e5f6a7b8".into(),
    }
}

fn probe(ip: bool) -> BridgeProbe {
    BridgeProbe { ip, networkctl: true, resolvectl: false, dhcpcd: false, ifup: false, is_root: false }
}

#[test]
fn check_does_not_panic() {
    let d = check(probe(true));
    let _ = d.is_root;
    let _ = d.systemd_networkd;
}

#[test]
fn missing_populated_on_no_ip() {
    let d = check(probe(false));
    if !d.iproute2 {
        assert!(d.missing.iter().any(|m| m.contains("iproute2")));
    }
}

#[test]
fn bridge_config_no_addr() {
    let c = BridgeConfig {
        zt_iface: "zt0".into(),
        phy_iface: "eth1".into(),
        bridge_iface: "br0".into(),
        bridge_addr: None,
        gateway: None,
        network_id: "a1b2c3d4e5f6a7b8".into(),
    };
    assert!(c.bridge_addr.is_none());
    assert!(c.gateway.is_none());
}

#[test]
fn apply_returns_unsupported_on_non_linux() {
    let err = apply(&cfg(), "macos").unwrap_err();
    assert!(err.message().contains("Linux"));
}

#[test]
fn remove_returns_unsupported_on_non_linux() {
    let err = remove(&cfg(), "windows").unwrap_err();
    assert!(err.message().contains("Linux"));
}

#[test]
fn bridge_apply_plan_with_static_address() {
    let steps = apply(&cfg(), "linux").unwrap();
    assert_eq!(steps.len(), 12);
    match &steps[0].action {
        Action::Run { program, args } => {
            assert_eq!(program, "ip");
            assert_eq!(args, &vec!["link", "add", "br0", "type", "bridge"]);
        }
        _ => panic!("first step runs ip"),
    }
    assert_eq!(steps[0].on_failure, OnFailure::Ignore);
    match &steps[8].action {
        Action::Write { path, content } => {
            assert_eq!(path, "/etc/systemd/network/10-ztnet-br0.netdev");
            assert_eq!(content, "[NetDev]\nName=br0\nKind=bridge\n");
        }
        _ => panic!("netdev unit"),
    }
    match &steps[10].action {
        Action::Write { path, content } => {
            assert_eq!(path, "/etc/systemd/network/10-ztnet-br0.network");
            assert_eq!(
                content,
                "[Match]\nName=br0\n\n[Network]\nDHCP=no\n\n[Address]\nAddress=192.168.1.10/24\n\n[Route]\nGateway=192.168.1.1\n"
            );
        }
        _ => panic!("bridge network unit"),
    }
}

#[test]
fn bridge_apply_plan_with_dhcp() {
    let mut c = cfg();
    c.bridge_addr = None;
    c.gateway = None;
    let steps = apply(&c, "linux").unwrap();
    assert_eq!(steps.len(), 8);
    match &steps[5].action {
        Action::Write { content, .. } => {
            assert_eq!(content, "[Match]\nName=zt3abc\nName=eth0\n\n[Network]\nBridge=br0\nDHCP=no\n");
        }
        _ => panic!("master unit"),
    }
    match &steps[6].action {
        Action::Write { content, .. } => assert_eq!(content, "[Match]\nName=br0\n\n[Network]\nDHCP=yes\n"),
        _ => panic!("bridge unit"),
    }
}

#[test]
fn bridge_remove_deletes_the_units_apply_writes() {
    let c = cfg();
    let a = apply(&c, "linux").unwrap();
    let d = remove(&c, "linux").unwrap();
    let written: Vec<String> = a
        .iter()
        .filter_map(|s| match &s.action {
            Action::Write { path, .. } => Some(path.clone()),
            _ => None,
        })
        .collect();
    let removed: Vec<String> = d
        .iter()
        .filter_map(|s| match &s.action {
            Action::Remove { path } => Some(path.clone()),
            _ => None,
        })
        .collect();
    assert_eq!(written, removed);
    assert!(d.iter().all(|s| s.on_failure == OnFailure::Ignore));
}

#[test]
fn bridge_deps_install_plan() {
    assert!(install(true, "macos").is_err());
    let steps = install(true, "linux").unwrap();
    assert_eq!(steps.len(), 4);
    let steps = install(false, "linux").unwrap();
    assert_eq!(steps.len(), 1);
    match &steps[0].action {
        Action::Run { program, args } => {
            assert_eq!(program, "systemctl");
            assert_eq!(args, &vec!["enable", "--now", "systemd-networkd"]);
        }
        _ => panic!(),
    }
}

#[test]
fn bridge_platform_check() {
    let p = ztnet_box::bridge::platform::check("linux");
    assert!(p.supported);
    let p = ztnet_box::bridge::platform::check("freebsd");
    assert!(!p.supported);
    assert_eq!(p.os, "freebsd");
    assert_eq!(p.reason.as_deref(), Some("Layer 2 Bridge requires Linux (systemd-networkd + ip link)"));
}
