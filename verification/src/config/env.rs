//! Environment variables that override values of the configuration file.
use super::schema::Config;
use crate::text::{chars_of, parse_unsigned, parse_uint};
use vstd::prelude::*;

verus! {

/// The values of the override variables, `None` for an unset variable.
#[derive(Debug, Clone)]
pub struct EnvOverrides {
    /// `ZT_SERVER_HOST`
    pub server_host: Option<String>,
    /// `ZT_SERVER_PORT`
    pub server_port: Option<String>,
    /// `ZT_LOCAL_API_URL`
    pub local_api_url: Option<String>,
    /// `ZT_LOCAL_TOKEN_FILE`
    pub local_token_file: Option<String>,
    /// `ZT_CENTRAL_BASE_URL`
    pub central_base_url: Option<String>,
}

/// `v` when the variable is set, else `old`.
pub open spec fn overridden(var: Option<String>, old: String) -> String {
    match var {
        Some(v) => v,
        None => old,
    }
}

/// The port that `ZT_SERVER_PORT` sets: its value when it parses as a port
/// number, else the old port.
pub open spec fn port_after(var: Option<String>, old: u16) -> u16 {
    match var {
        Some(v) => match parse_unsigned(v@, 65535) {
            Some(p) => p as u16,
            None => old,
        },
        None => old,
    }
}

/// Applies the environment variables over the loaded configuration. A port
/// that does not parse leaves the port as it was; nothing else changes.
pub fn apply_env_overrides(cfg: &mut Config, vars: EnvOverrides)
    ensures
        final(cfg).server.host == overridden(vars.server_host, old(cfg).server.host),
        final(cfg).server.port == port_after(vars.server_port, old(cfg).server.port),
        final(cfg).zerotier.local.api_url == overridden(vars.local_api_url, old(cfg).zerotier.local.api_url),
        final(cfg).zerotier.local.token_file == overridden(vars.local_token_file, old(cfg).zerotier.local.token_file),
        final(cfg).zerotier.central.base_url == overridden(vars.central_base_url, old(cfg).zerotier.central.base_url),
        final(cfg).zerotier.central.tokens == old(cfg).zerotier.central.tokens,
        final(cfg).zerotier.central.active_token_id == old(cfg).zerotier.central.active_token_id,
        final(cfg).metrics == old(cfg).metrics,
        final(cfg).exitnode == old(cfg).exitnode,
{
    if let Some(v) = vars.server_host {
        cfg.server.host = v;
    }
    if let Some(v) = vars.server_port {
        let d = chars_of(v.as_str());
        if let Some(p) = parse_uint(&d, 65535) {
            cfg.server.port = p as u16;
        }
    }
    if let Some(v) = vars.local_api_url {
        cfg.zerotier.local.api_url = v;
    }
    if let Some(v) = vars.local_token_file {
        cfg.zerotier.local.token_file = v;
    }
    if let Some(v) = vars.central_base_url {
        cfg.zerotier.central.base_url = v;
    }
}

} // verus!
