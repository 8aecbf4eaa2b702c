use ztnet_box::zerotier::detection::{InstallDecision, InstallResult, PackageManager, ZtDetectionResult};
use ztnet_box::command::Action;
use ztnet_box::config::schema::{CentralToken, RateLimit};
use ztnet_box::relay::RemoteRelayInfo;
use ztnet_box::server::error::ApiError;
use ztnet_box::server::handlers::{bridge, exitnode, local_config, ndp, physnet, relay, system, tokens};
use ztnet_box::zerotier::local_config::{LocalSettings, NetworkLocalConf};

fn invalid(r: Result<(), ApiError>) -> String {
    match r {
        Err(ApiError::InvalidInput(m)) => m,
        _ => panic!("expected invalid input"),
    }
}

#[test]
fn exitnode_enable_checks_and_warnings() {
    let mut req = exitnode::EnableRequest {
        zt_interface: " ".into(),
        wan_interface: "eth0".into(),
        network_id: Some("8056c2e21c000001".into()),
        enable_ipv6: true,
        ipv6_prefix: Some("2001:db8::/129".into()),
    };
    assert_eq!(invalid(exitnode::check_enable(&req)), "zt_interface and wan_interface are required");
    req.zt_interface = "zt0".into();
    assert_eq!(invalid(exitnode::check_enable(&req)), "ipv6_prefix is not a valid CIDR: 2001:db8::/129");
    req.ipv6_prefix = Some("2001:db8::/64".into());
    assert!(exitnode::check_enable(&req).is_ok());
    let id = exitnode::network_to_check(&req).unwrap();
    let nc = NetworkLocalConf { allow_managed: None, allow_global: Some(true), allow_default: None, allow_dns: None };
    let w = exitnode::enable_warnings(&req, Some((id, Some(nc))));
    assert_eq!(w.len(), 2);
    assert!(w[0].starts_with("allowDefault is not set for network 8056c2e21c000001."));
    assert!(w[1].starts_with("IPv6 NAT"));
    req.network_id = Some("bad".into());
    assert!(exitnode::network_to_check(&req).is_none());
    req.network_id = None;
    let w = exitnode::enable_warnings(&req, None);
    assert_eq!(w.len(), 2);
    assert!(w[0].starts_with("IPv6 enabled without a network_id"));
}

#[test]
fn physnet_enable_plan() {
    let req = physnet::EnableRequest {
        zt_iface: "zt0".into(),
        phy_iface: "eth0".into(),
        phy_subnet: "192.168.1.0/24".into(),
        zt_addr: "10.147.17.5".into(),
        network_id: "8056c2e21c000001".into(),
    };
    match physnet::plan_enable(req.clone(), true, true, true) {
        Err(ApiError::ZtLocal(m)) => assert!(m.contains("; Layer 2 Bridge is active.")),
        _ => panic!(),
    }
    match physnet::plan_enable(req.clone(), false, false, false) {
        Err(ApiError::ZtLocal(m)) => assert_eq!(m, "Root privileges required for iptables rules"),
        _ => panic!(),
    }
    let plan = physnet::plan_enable(req.clone(), true, true, false).unwrap();
    assert_eq!(plan.warnings.len(), 1);
    assert_eq!(plan.next_step, "Add managed route in ZeroTier Central: destination=192.168.1.0/23 via=<zt_addr>");
    let mut bad = req.clone();
    bad.zt_addr = "nope".into();
    match physnet::plan_enable(bad, true, false, false) {
        Err(ApiError::InvalidInput(m)) => assert_eq!(m, "invalid IP address: 'nope'"),
        _ => panic!(),
    }
}

#[test]
fn bridge_enable_plan() {
    let req = bridge::EnableRequest {
        zt_iface: "zt0".into(),
        phy_iface: "eth0".into(),
        bridge_iface: bridge::default_bridge_iface(),
        bridge_addr: Some("192.168.1.10/24".into()),
        gateway: Some("192.168.1.1".into()),
        network_id: "8056c2e21c000001".into(),
    };
    match bridge::plan_enable(req.clone(), true, true) {
        Err(ApiError::ZtLocal(m)) => assert!(m.starts_with("Physical Network Routing is active")),
        _ => panic!(),
    }
    let (cfg, next) = bridge::plan_enable(req.clone(), true, false).unwrap();
    assert_eq!(cfg.bridge_iface, "br0");
    assert!(next.starts_with("In ZeroTier Central network 8056c2e21c000001, set 'bridging=true'"));
    let mut bad = req;
    bad.bridge_iface = "".into();
    match bridge::plan_enable(bad, true, false) {
        Err(ApiError::InvalidInput(m)) => assert_eq!(m, "bridge_iface required"),
        _ => panic!(),
    }
}

#[test]
fn ndp_enable_request() {
    let req = ndp::EnableRequest { wan_iface: "eth0".into(), zt_prefix: ndp::default_zt_prefix(), ipv6_prefix: "2001:db8::/64".into() };
    let cfg = ndp::plan_enable(req.clone(), true).unwrap();
    assert_eq!(cfg.zt_prefix, "zt");
    assert!(matches!(ndp::plan_enable(req, false), Err(ApiError::ZtLocal(_))));
}

#[test]
fn token_requests() {
    let req = tokens::AddTokenRequest { name: "n".into(), token: "  ".into() };
    assert_eq!(invalid(tokens::check_add(&req)), "token must not be empty");
    let t = CentralToken::new("old".into(), "secret".into(), RateLimit::Free);
    let (name, token, changed) = tokens::resolve_update(tokens::UpdateTokenRequest { name: None, token: Some("secret".into()) }, &t);
    assert_eq!((name.as_str(), token.as_str(), changed), ("old", "secret", false));
    let v = tokens::to_view(&t, &t.id);
    assert!(v.is_active);
    assert_eq!(v.masked_token, "secr***");
}

#[test]
fn relay_requests() {
    assert!(relay::validate_relay_endpoint("1.2.3.4/443").is_ok());
    assert_eq!(invalid(relay::validate_relay_endpoint("1.2.3.4")), "relay endpoint must be 'ip/port', got '1.2.3.4'");
    assert_eq!(invalid(relay::validate_relay_endpoint("1.2.3.4/0")), "port must be > 0");
    assert_eq!(invalid(relay::validate_relay_endpoint("1.2.3.4/99999")), "invalid port in relay endpoint '1.2.3.4/99999'");
    let mut s: Option<LocalSettings> = None;
    relay::apply_local_update(&mut s, &relay::UpdateLocalRequest { force_tcp_relay: Some(true), tcp_fallback_relay: Some("1.2.3.4/443".into()) });
    let st = s.clone().unwrap();
    assert_eq!(st.force_tcp_relay, Some(true));
    relay::apply_local_update(&mut s, &relay::UpdateLocalRequest { force_tcp_relay: None, tcp_fallback_relay: None });
    let st = s.unwrap();
    assert_eq!(st.force_tcp_relay, Some(true));
    assert!(st.tcp_fallback_relay.is_none());
    let info = RemoteRelayInfo { host: "h".into(), port: 443, reachable: None, deployed_at: "t".into() };
    assert_eq!(relay::relay_endpoint(&info), "h/443");
}

#[test]
fn network_conf_warning() {
    let nc = NetworkLocalConf { allow_managed: Some(false), allow_global: None, allow_default: Some(true), allow_dns: None };
    let w = local_config::network_conf_warnings(&nc);
    assert_eq!(w.len(), 1);
    assert_eq!(w[0].0, "allowDefault");
}

#[test]
fn planet_and_moon() {
    let info = system::planet_info(Some(b"hello".to_vec()), Some(5), true);
    assert_eq!(info.base64.as_deref(), Some("aGVsbG8="));
    let steps = system::plan_upload(&system::PlanetFileUpload { base64: "aGVsbG8=".into() }, true, false).unwrap();
    assert_eq!(steps.len(), 3);
    match &steps[1].action {
        Action::WriteBytes { path, content } => {
            assert_eq!(path, "/var/lib/zerotier-one/planet");
            assert_eq!(content, b"hello");
        }
        _ => panic!(),
    }
    match system::plan_upload(&system::PlanetFileUpload { base64: "!!".into() }, true, false) {
        Err(ApiError::InvalidInput(m)) => assert!(m.starts_with("invalid base64: ")),
        _ => panic!(),
    }
    assert_eq!(system::plan_reset(false).len(), 2);
    let r = system::moon_response("000000deadbeef00", b"moon");
    assert_eq!(r.world_id, "deadbeef00");
    assert!(r.instructions.contains("zerotier-cli orbit deadbeef00 deadbeef00"));
    let p = system::check_moon(&system::GenerateMoonRequest { stable_endpoint: "1.2.3.4/9993".into(), identity_path: None }).unwrap();
    assert_eq!(p, "/var/lib/zerotier-one/identity.public");
}

#[test]
fn zt_install_without_package_manager_is_unsupported() {
    let none_found = ZtDetectionResult { zerotier_one: None, zerotier_idtool: None, version: None, cli_available: false };
    match system::zt_install(None, none_found.clone(), "linux", false) {
        InstallDecision::Done(InstallResult::UnsupportedPlatform { reason }) => {
            assert_eq!(reason, "No supported package manager found (apt, dnf, pacman, brew)")
        }
        other => panic!("unexpected {other:?}"),
    }
    match system::zt_install(Some(PackageManager::Pacman), none_found, "linux", false) {
        InstallDecision::Run { step, failure } => {
            match step.action {
                Action::Run { program, args } => {
                    assert_eq!(program, "/usr/bin/pacman");
                    assert_eq!(args, vec!["-S", "--noconfirm", "zerotier-one"]);
                }
                other => panic!("unexpected {other:?}"),
            }
            assert_eq!(failure, "Package manager Pacman failed. Try manually: https://www.zerotier.com/download/");
        }
        other => panic!("unexpected {other:?}"),
    }
}

#[test]
fn which_idtool_prefers_known_paths_then_path_lookup() {
    assert_eq!(system::which_idtool([false, true, true], None), Some("/usr/local/sbin/zerotier-idtool".to_string()));
    assert_eq!(system::which_idtool([false, false, false], Some("/opt/zt/zerotier-idtool\n".to_string())), Some("/opt/zt/zerotier-idtool".to_string()));
    assert_eq!(system::which_idtool([false, false, false], None), None);
}

#[test]
fn moon_stem_of_generated_file() {
    assert_eq!(system::moon_stem("000000deadbeef.moon"), Some("000000deadbeef".to_string()));
    assert_eq!(system::moon_stem("identity.public"), None);
    assert_eq!(system::moon_stem(".moon"), None);
    assert_eq!(system::moon_stem("a.b.moon"), Some("a.b".to_string()));
    assert_eq!(system::world_id_of(&system::moon_stem("000000deadbeef.moon").unwrap()), "deadbeef");
}
