//! Physical network routing: NAT between ZeroTier and a physical LAN, so
//! that the LAN can be reached over ZeroTier without touching its router.
pub mod conflicts;
pub mod deps;
pub mod rules;

use crate::text::{chars_of, decimal, decimal_vec, find, find_char, parse_uint, parse_unsigned, slice, string_of};
use vstd::prelude::*;

verus! {

/// The routing to set up.
#[derive(Debug, Clone)]
pub struct PhysNetConfig {
    /// ZeroTier interface name (e.g. "zt7nnig26")
    pub zt_iface: String,
    /// Physical interface to the LAN (e.g. "eth0")
    pub phy_iface: String,
    /// Physical subnet in CIDR (e.g. "192.168.100.0/24"); the managed route
    /// in ZeroTier Central should be one bit wider.
    pub phy_subnet: String,
    /// ZeroTier IP address of this node (the gateway address)
    pub zt_addr: String,
    /// ZeroTier network ID
    pub network_id: String,
}

/// Whether the routing is on, and with what.
#[derive(Debug, Clone)]
pub struct PhysNetState {
    pub enabled: bool,
    pub config: Option<PhysNetConfig>,
    /// When the rules were applied (RFC 3339).
    pub applied_at: Option<String>,
}

/// `cidr` with its prefix length one bit shorter; `None` when there is no
/// `/`, the length after it is not a number up to 255, or it is 0.
pub open spec fn widen_spec(cidr: Seq<char>) -> Option<Seq<char>> {
    match find(cidr, '/') {
        None => None,
        Some(i) => match parse_unsigned(cidr.skip(i + 1), 255) {
            Some(p) => if p == 0 {
                None
            } else {
                Some(cidr.take(i) + "/"@ + decimal((p - 1) as nat))
            },
            None => None,
        },
    }
}

/// Widens a CIDR by one prefix bit (e.g. /24 → /23).
pub fn widen_subnet(cidr: &str) -> (r: Option<String>)
    ensures
        match r {
            Some(s) => widen_spec(cidr@) == Some(s@),
            None => widen_spec(cidr@) is None,
        },
{
    let c = chars_of(cidr);
    let slash = match find_char(&c, '/') {
        Some(i) => i,
        None => return None,
    };
    proof {
        crate::text::lemma_find_bounds(c@, '/');
    }
    let rest = slice(&c, slash + 1, c.len());
    assert(rest@ =~= c@.skip(slash + 1));
    let p = match parse_uint(&rest, 255) {
        Some(p) => p,
        None => return None,
    };
    if p == 0 {
        return None;
    }
    let mut b = slice(&c, 0, slash);
    assert(b@ =~= c@.take(slash as int));
    b.push('/');
    let d = decimal_vec(p - 1);
    let ghost before = b@;
    let mut k: usize = 0;
    while k < d.len()
        invariant
            k <= d.len(),
            b@ =~= before + d@.take(k as int),
        decreases d.len() - k,
    {
        b.push(d[k]);
        assert(d@.take(k + 1) =~= d@.take(k as int).push(d@[k as int]));
        k += 1;
    }
    assert(d@.take(d.len() as int) =~= d@);
    proof {
        reveal_strlit("/");
        assert(before =~= c@.take(slash as int) + "/"@);
    }
    Some(string_of(&b))
}

/// The managed route to configure in ZeroTier Central: the physical subnet
/// one bit wider, so that nodes on both networks prefer the physical path
/// (longest prefix wins); the subnet itself when it cannot be widened.
pub fn managed_route_hint(phy_subnet: &str) -> (r: String)
    ensures
        r@ == match widen_spec(phy_subnet@) {
            Some(w) => w,
            None => phy_subnet@,
        },
{
    match widen_subnet(phy_subnet) {
        Some(w) => w,
        None => phy_subnet.to_owned(),
    }
}

} // verus!
