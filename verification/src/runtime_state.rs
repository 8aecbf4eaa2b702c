//! Persistent runtime state (bridge, physical routing, relay), so that the
//! service keeps track of what it configured in the OS across restarts.
use crate::bridge::BridgeState;
use crate::physnet::PhysNetState;
use crate::relay::RemoteRelayInfo;
use crate::text::{join_path, join_spec, owned};
use vstd::prelude::*;

verus! {

/// Everything that needs to survive a restart.
#[derive(Debug, Clone)]
pub struct RuntimeState {
    pub physnet: PhysNetState,
    pub bridge: BridgeState,
    pub relay_remote: Option<RemoteRelayInfo>,
}

impl Default for RuntimeState {
    fn default() -> (r: Self)
        ensures
            !r.physnet.enabled && r.physnet.config is None && r.physnet.applied_at is None,
            !r.bridge.enabled && r.bridge.config is None && r.bridge.applied_at is None,
            r.relay_remote is None,
    {
        RuntimeState {
            physnet: PhysNetState { enabled: false, config: None, applied_at: None },
            bridge: BridgeState { enabled: false, config: None, applied_at: None },
            relay_remote: None,
        }
    }
}

/// Where the state file lives: `$ZTNET_STATE_FILE` when set; else the
/// system path when its directory exists; else `ztnet-box/state.json` under
/// `$XDG_DATA_HOME`, or under `$HOME/.local/share`, or under `.`.
pub open spec fn state_path_spec(
    state_file: Option<Seq<char>>,
    system_dir_exists: bool,
    xdg_data_home: Option<Seq<char>>,
    home: Option<Seq<char>>,
) -> Seq<char> {
    match state_file {
        Some(p) => p,
        None => if system_dir_exists {
            "/var/lib/ztnet-box/state.json"@
        } else {
            let base = match xdg_data_home {
                Some(x) => x,
                None => match home {
                    Some(h) => join_spec(join_spec(h, ".local"@), "share"@),
                    None => "."@,
                },
            };
            join_spec(join_spec(base, "ztnet-box"@), "state.json"@)
        },
    }
}

pub open spec fn opt_view(o: Option<String>) -> Option<Seq<char>> {
    match o {
        Some(s) => Some(s@),
        None => None,
    }
}

/// Where the state file lives, from the environment (`ZTNET_STATE_FILE`,
/// `XDG_DATA_HOME`, `HOME`) and whether `/var/lib/ztnet-box` exists.
pub fn state_path(
    state_file: Option<String>,
    system_dir_exists: bool,
    xdg_data_home: Option<String>,
    home: Option<String>,
) -> (r: String)
    ensures
        r@ == state_path_spec(opt_view(state_file), system_dir_exists, opt_view(xdg_data_home), opt_view(home)),
{
    if let Some(p) = state_file {
        return p;
    }
    if system_dir_exists {
        return "/var/lib/ztnet-box/state.json".to_owned();
    }
    let base = match xdg_data_home {
        Some(x) => x,
        None => match home {
            Some(h) => {
                let l = join_path(h.as_str(), ".local");
                join_path(l.as_str(), "share")
            },
            None => owned("."),
        },
    };
    let d = join_path(base.as_str(), "ztnet-box");
    join_path(d.as_str(), "state.json")
}

} // verus!
