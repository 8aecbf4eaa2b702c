use ztnet_box::config::env::{apply_env_overrides, EnvOverrides};
use ztnet_box::config::schema::{Config, ServerConfig};
use ztnet_box::config::{config_candidates, find_config_file, ConfigError};
use ztnet_box::runtime_state::state_path;
use ztnet_box::text::join_path;
use ztnet_box::server::error::ApiError;
use ztnet_box::server::handlers::config::{apply_update, UpdateConfigRequest};

fn none() -> EnvOverrides {
    EnvOverrides { server_host: None, server_port: None, local_api_url: None, local_token_file: None, central_base_url: None }
}

#[test]
fn env_override_host_and_port() {
    let mut cfg = Config::default();
    let vars = EnvOverrides { server_host: Some("0.0.0.0".into()), server_port: Some("8080".into()), ..none() };
    apply_env_overrides(&mut cfg, vars);
    assert_eq!(cfg.server.host, "0.0.0.0");
    assert_eq!(cfg.server.port, 8080);
}

#[test]
fn env_override_local_api_url() {
    let mut cfg = Config::default();
    apply_env_overrides(&mut cfg, EnvOverrides { local_api_url: Some("http://10.0.0.1:9993".into()), ..none() });
    assert_eq!(cfg.zerotier.local.api_url, "http://10.0.0.1:9993");
}

#[test]
fn env_invalid_port_leaves_default() {
    let mut cfg = Config::default();
    let orig = cfg.server.port;
    apply_env_overrides(&mut cfg, EnvOverrides { server_port: Some("not_a_number".into()), ..none() });
    assert_eq!(cfg.server.port, orig);
    apply_env_overrides(&mut cfg, EnvOverrides { server_port: Some("70000".into()), ..none() });
    assert_eq!(cfg.server.port, orig);
}

#[test]
fn no_env_vars_leaves_defaults() {
    let mut cfg = Config::default();
    let orig_host = cfg.server.host.clone();
    let orig_port = cfg.server.port;
    apply_env_overrides(&mut cfg, none());
    assert_eq!(cfg.server.host, orig_host);
    assert_eq!(cfg.server.port, orig_port);
}

#[test]
fn defaults_and_validation() {
    let cfg = Config::default();
    assert_eq!(cfg.server.host, "127.0.0.1");
    assert_eq!(cfg.server.port, 3000);
    assert_eq!(cfg.metrics.poll_interval_seconds, 15);
    assert!(cfg.exitnode.nftables_preferred);
    assert!(cfg.validate().is_ok());
    let mut bad = cfg.clone();
    bad.server.port = 0;
    match bad.validate() {
        Err(e) => assert_eq!(e.message(), "Validation error: server.port must be 1–65535"),
        Ok(_) => panic!(),
    }
    let mut bad = cfg.clone();
    bad.server.host = String::new();
    assert!(matches!(bad.validate(), Err(ConfigError::Validation(_))));
}

#[test]
fn config_update_request() {
    let mut cfg = Config::default();
    let req = UpdateConfigRequest {
        server: Some(ServerConfig { host: "0.0.0.0".into(), port: 0 }),
        zerotier_local: None,
        metrics: None,
        exitnode: None,
        central_base_url: None,
    };
    match apply_update(&mut cfg, req) {
        Err(ApiError::InvalidInput(m)) => assert_eq!(m, "port must be 1–65535"),
        _ => panic!(),
    }
    assert_eq!(cfg.server.host, "127.0.0.1");
    let req = UpdateConfigRequest {
        server: Some(ServerConfig { host: "0.0.0.0".into(), port: 8080 }),
        zerotier_local: None,
        metrics: None,
        exitnode: None,
        central_base_url: Some("https://example.org".into()),
    };
    assert!(apply_update(&mut cfg, req).is_ok());
    assert_eq!(cfg.server.port, 8080);
    assert_eq!(cfg.zerotier.central.base_url, "https://example.org");
}

#[test]
fn config_candidates_use_home() {
    let c = config_candidates(Some("/home/u".to_string()));
    assert_eq!(c, vec![
        "config.yml".to_string(),
        "/home/u/.config/ztnet-box/config.yml".to_string(),
        "/etc/ztnet-box/config.yml".to_string(),
    ]);
    let c = config_candidates(None);
    assert_eq!(c[1], "/etc/ztnet-box/config.yml");
}

#[test]
fn find_config_file_takes_first_existing() {
    let c = config_candidates(Some("/home/u".to_string()));
    assert_eq!(find_config_file(&c, &vec![false, true, true]), "/home/u/.config/ztnet-box/config.yml");
    assert_eq!(find_config_file(&c, &vec![false, false, true]), "/etc/ztnet-box/config.yml");
    assert_eq!(find_config_file(&c, &vec![false, false, false]), "config.yml");
}

#[test]
fn join_path_adds_one_separator() {
    assert_eq!(join_path("/home/u", ".config"), "/home/u/.config");
    assert_eq!(join_path("/home/u/", ".config"), "/home/u/.config");
    assert_eq!(join_path("", ".config"), ".config");
}

#[test]
fn state_path_order() {
    assert_eq!(state_path(Some("/tmp/s.json".into()), true, None, None), "/tmp/s.json");
    assert_eq!(state_path(None, true, Some("/x".into()), None), "/var/lib/ztnet-box/state.json");
    assert_eq!(state_path(None, false, Some("/x".into()), Some("/h".into())), "/x/ztnet-box/state.json");
    assert_eq!(state_path(None, false, None, Some("/h".into())), "/h/.local/share/ztnet-box/state.json");
    assert_eq!(state_path(None, false, None, None), "./ztnet-box/state.json");
}
