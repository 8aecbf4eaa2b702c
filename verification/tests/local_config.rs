use ztnet_box::zerotier::local_config::{local_conf_path, network_local_conf_path, validate_settings, zerotier_home, LocalConf, LocalSettings, PhysicalPathConfig};

#[test]
fn validate_force_tcp_relay_conflict() {
    let s = LocalSettings { force_tcp_relay: Some(true), port_mapping_enabled: Some(true), ..Default::default() };
    let w = validate_settings(&s);
    assert!(w.iter().any(|w| w.field == "forceTcpRelay"));
}

#[test]
fn validate_same_ports() {
    let s = LocalSettings { primary_port: Some(9993), secondary_port: Some(9993), ..Default::default() };
    let w = validate_settings(&s);
    assert!(w.iter().any(|w| w.field == "secondaryPort"));
}

#[test]
fn validate_zt_blacklist_warning() {
    let s = LocalSettings {
        interface_prefix_blacklist: Some(vec!["zt".into(), "docker".into()]),
        ..Default::default()
    };
    let w = validate_settings(&s);
    assert!(w.iter().any(|w| w.field == "interfacePrefixBlacklist"));
}

#[test]
fn no_warnings_for_clean_settings() {
    let s = LocalSettings { primary_port: Some(9993), port_mapping_enabled: Some(true), ..Default::default() };
    assert!(validate_settings(&s).is_empty());
}

#[test]
fn local_conf_path_is_absolute() {
    assert!(std::path::Path::new(&local_conf_path("linux")).is_absolute());
}

#[test]
fn paths_per_platform() {
    assert_eq!(zerotier_home("linux"), "/var/lib/zerotier-one");
    assert_eq!(local_conf_path("macos"), "/Library/Application Support/ZeroTier/One/local.conf");
    assert_eq!(network_local_conf_path("linux", "8056c2e21c000001"), "/var/lib/zerotier-one/8056c2e21c000001.local.conf");
}

#[test]
fn physical_section_keeps_each_cidr_once() {
    let mut c = LocalConf::default();
    c.set_physical("10.0.0.0/8".into(), PhysicalPathConfig { blacklist: Some(true), trust: None });
    c.set_physical("192.168.0.0/16".into(), PhysicalPathConfig { blacklist: None, trust: None });
    c.set_physical("10.0.0.0/8".into(), PhysicalPathConfig { blacklist: Some(false), trust: None });
    assert_eq!(c.physical.len(), 2);
    assert_eq!(c.physical[0].0, "10.0.0.0/8");
    assert_eq!(c.physical[0].1.blacklist, Some(false));
}
