//! The local.conf endpoints.
use crate::zerotier::local_config::{LocalSettings, NetworkLocalConf};
use vstd::prelude::*;

verus! {

#[derive(Debug, Clone)]
pub struct UpdateLocalConfRequest {
    pub settings: Option<LocalSettings>,
}

/// The warnings about a network's settings: allowDefault has no effect
/// without allowManaged.
pub fn network_conf_warnings(conf: &NetworkLocalConf) -> (r: Vec<(String, String)>)
    ensures
        (conf.allow_default == Some(true) && conf.allow_managed == Some(false)) ==> r@.len() == 1
            && r@[0].0@ == "allowDefault"@ && r@[0].1@ == "allowDefault=true has no effect when allowManaged=false"@,
        !(conf.allow_default == Some(true) && conf.allow_managed == Some(false)) ==> r@.len() == 0,
{
    let mut r: Vec<(String, String)> = Vec::new();
    if conf.allow_default == Some(true) && conf.allow_managed == Some(false) {
        r.push(("allowDefault".to_owned(), "allowDefault=true has no effect when allowManaged=false".to_owned()));
    }
    r
}

} // verus!
