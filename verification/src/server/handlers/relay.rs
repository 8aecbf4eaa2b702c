//! The relay endpoints.
use crate::relay::{RelayDeployConfig, RemoteRelayInfo};
use crate::server::error::ApiError;
use crate::server::validate::invalid;
use crate::text::{chars_of, decimal, decimal_vec, find, find_char, is_blank, lit, parse_uint, parse_unsigned, push_str, slice, string_of, trim};
use crate::zerotier::local_config::LocalSettings;
use vstd::prelude::*;

verus! {

/// `PUT /api/relay/local`.
#[derive(Debug, Clone)]
pub struct UpdateLocalRequest {
    pub force_tcp_relay: Option<bool>,
    /// "ip/port", or null to clear
    pub tcp_fallback_relay: Option<String>,
}

/// The verdict on a relay endpoint `ip/port`.
pub open spec fn endpoint_check(ep: Seq<char>) -> Result<(), Seq<char>> {
    match find(ep, '/') {
        None => Err("relay endpoint must be 'ip/port', got '"@ + ep + "'"@),
        Some(i) => match parse_unsigned(ep.skip(i + 1), 65535) {
            None => Err("invalid port in relay endpoint '"@ + ep + "'"@),
            Some(p) => if p == 0 {
                Err("port must be > 0"@)
            } else {
                Ok(())
            },
        },
    }
}

/// Checks a relay endpoint: `ip/port` with a port from 1 to 65535.
pub fn validate_relay_endpoint(ep: &str) -> (r: Result<(), ApiError>)
    ensures
        crate::server::validate::answers(r, endpoint_check(ep@)),
{
    let c = chars_of(ep);
    let slash = match find_char(&c, '/') {
        Some(i) => i,
        None => {
            let mut b = lit("relay endpoint must be 'ip/port', got '");
            push_str(&mut b, ep);
            push_str(&mut b, "'");
            return Err(ApiError::InvalidInput(string_of(&b)));
        },
    };
    proof {
        crate::text::lemma_find_bounds(c@, '/');
    }
    let rest = slice(&c, slash + 1, c.len());
    assert(rest@ =~= c@.skip(slash + 1));
    match parse_uint(&rest, 65535) {
        None => {
            let mut b = lit("invalid port in relay endpoint '");
            push_str(&mut b, ep);
            push_str(&mut b, "'");
            Err(ApiError::InvalidInput(string_of(&b)))
        },
        Some(p) => {
            if p == 0 {
                Err(ApiError::InvalidInput("port must be > 0".to_owned()))
            } else {
                Ok(())
            }
        },
    }
}

/// Applies a relay update to local.conf's settings (created when missing):
/// the force flag when given, and the fallback relay always (cleared by null).
pub fn apply_local_update(settings: &mut Option<LocalSettings>, req: &UpdateLocalRequest)
    ensures
        (*final(settings)) is Some,
        (*final(settings))->0.tcp_fallback_relay == req.tcp_fallback_relay,
        (*final(settings))->0.force_tcp_relay == match req.force_tcp_relay {
            Some(v) => Some(v),
            None => match *old(settings) {
                Some(s) => s.force_tcp_relay,
                None => None,
            },
        },
{
    let mut s = match settings.take() {
        Some(s) => s,
        None => LocalSettings::default(),
    };
    if let Some(v) = req.force_tcp_relay {
        s.force_tcp_relay = Some(v);
    }
    s.tcp_fallback_relay = crate::text::copy_opt(&req.tcp_fallback_relay);
    *settings = Some(s);
}

/// A deploy request needs a host.
pub fn check_deploy(cfg: &RelayDeployConfig) -> (r: Result<(), ApiError>)
    ensures
        trim(cfg.host@).len() == 0 ==> invalid(r, "host is required"@),
        trim(cfg.host@).len() != 0 ==> r is Ok,
{
    if is_blank(cfg.host.as_str()) {
        return Err(ApiError::InvalidInput("host is required".to_owned()));
    }
    Ok(())
}

/// The endpoint `host/port` of a deployed relay.
pub fn relay_endpoint(info: &RemoteRelayInfo) -> (r: String)
    ensures
        r@ == info.host@ + "/"@ + decimal(info.port as nat),
{
    let mut b = chars_of(info.host.as_str());
    push_str(&mut b, "/");
    let d = decimal_vec(info.port as u64);
    let b2 = crate::text::concat(&b, &d);
    string_of(&b2)
}

} // verus!
