//! Whether the bridge can run on the host's operating system.
use vstd::prelude::*;

verus! {

#[derive(Debug, Clone)]
pub struct PlatformInfo {
    pub supported: bool,
    pub os: String,
    pub reason: Option<String>,
}

/// Support on the operating system `os` (as `std::env::consts::OS` names
/// it): only Linux has systemd-networkd and `ip link`.
pub fn check(os: &str) -> (r: PlatformInfo)
    ensures
        r.os@ == os@,
        r.supported == (os@ == "linux"@),
        r.supported ==> r.reason is None,
        !r.supported ==> (r.reason matches Some(m) && m@ == "Layer 2 Bridge requires Linux (systemd-networkd + ip link)"@),
{
    if crate::text::str_eq(os, "linux") {
        PlatformInfo { supported: true, os: os.to_owned(), reason: None }
    } else {
        PlatformInfo {
            supported: false,
            os: os.to_owned(),
            reason: Some("Layer 2 Bridge requires Linux (systemd-networkd + ip link)".to_owned()),
        }
    }
}

} // verus!
