//! Whether the exit node can run on the host's operating system.
use vstd::prelude::*;

verus! {

/// The answer, with the reason when it is no.
#[derive(Debug, Clone)]
pub struct PlatformSupport {
    pub supported: bool,
    pub os: String,
    pub reason: Option<String>,
}

/// The reason given for an operating system other than Linux.
pub open spec fn unsupported_reason(os: Seq<char>) -> Seq<char> {
    if os == "macos"@ {
        "Exit Node requires Linux (iptables/nftables). macOS is not supported."@
    } else if os == "windows"@ {
        "Exit Node requires Linux. Windows is not supported."@
    } else {
        "Exit Node is not supported on "@ + os
    }
}

/// Support on the operating system `os` (as `std::env::consts::OS` names
/// it): only Linux is supported.
pub fn check(os: &str) -> (r: PlatformSupport)
    ensures
        r.os@ == os@,
        r.supported == (os@ == "linux"@),
        r.supported ==> r.reason is None,
        !r.supported ==> (r.reason matches Some(m) && m@ == unsupported_reason(os@)),
{
    let name = os.to_owned();
    let linux = "linux".to_owned();
    let macos = "macos".to_owned();
    let windows = "windows".to_owned();
    if name == linux {
        PlatformSupport { supported: true, os: name, reason: None }
    } else if name == macos {
        PlatformSupport {
            supported: false,
            os: name,
            reason: Some("Exit Node requires Linux (iptables/nftables). macOS is not supported.".to_owned()),
        }
    } else if name == windows {
        PlatformSupport {
            supported: false,
            os: name,
            reason: Some("Exit Node requires Linux. Windows is not supported.".to_owned()),
        }
    } else {
        let mut b = crate::text::lit("Exit Node is not supported on ");
        crate::text::push_str(&mut b, os);
        PlatformSupport { supported: false, os: name, reason: Some(crate::text::string_of(&b)) }
    }
}

} // verus!
