//! `PUT /api/config`.
use crate::config::schema::{Config, ExitNodeConfig, LocalConfig, MetricsConfig, ServerConfig};
use crate::server::error::ApiError;
use crate::server::validate::invalid;
use vstd::prelude::*;

verus! {

/// The parts of the configuration to replace; `None` keeps a part.
#[derive(Debug, Clone)]
pub struct UpdateConfigRequest {
    pub server: Option<ServerConfig>,
    pub zerotier_local: Option<LocalConfig>,
    pub metrics: Option<MetricsConfig>,
    pub exitnode: Option<ExitNodeConfig>,
    pub central_base_url: Option<String>,
}

pub open spec fn or_keep<T>(new: Option<T>, old: T) -> T {
    match new {
        Some(v) => v,
        None => old,
    }
}

/// Applies an update: refused when the new server port is 0; else each
/// given part replaces the current one and the rest stays.
pub fn apply_update(cfg: &mut Config, req: UpdateConfigRequest) -> (r: Result<(), ApiError>)
    ensures
        (req.server matches Some(s) && s.port == 0) ==> (invalid(r, "port must be 1–65535"@) && *final(cfg) == *old(cfg)),
        !(req.server matches Some(s) && s.port == 0) ==> r is Ok && final(cfg).server == or_keep(req.server, old(cfg).server)
            && final(cfg).zerotier.local == or_keep(req.zerotier_local, old(cfg).zerotier.local)
            && final(cfg).metrics == or_keep(req.metrics, old(cfg).metrics)
            && final(cfg).exitnode == or_keep(req.exitnode, old(cfg).exitnode)
            && final(cfg).zerotier.central.base_url == or_keep(req.central_base_url, old(cfg).zerotier.central.base_url)
            && final(cfg).zerotier.central.tokens == old(cfg).zerotier.central.tokens
            && final(cfg).zerotier.central.active_token_id == old(cfg).zerotier.central.active_token_id,
{
    if let Some(s) = &req.server {
        if s.port == 0 {
            return Err(ApiError::InvalidInput("port must be 1–65535".to_owned()));
        }
    }
    if let Some(s) = req.server {
        cfg.server = s;
    }
    if let Some(l) = req.zerotier_local {
        cfg.zerotier.local = l;
    }
    if let Some(m) = req.metrics {
        cfg.metrics = m;
    }
    if let Some(e) = req.exitnode {
        cfg.exitnode = e;
    }
    if let Some(url) = req.central_base_url {
        cfg.zerotier.central.base_url = url;
    }
    Ok(())
}

} // verus!
