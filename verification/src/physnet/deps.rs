//! What physical network routing needs on the host.
use crate::exitnode::deps::switched_on;
use vstd::prelude::*;

verus! {

#[derive(Debug, Clone)]
pub struct PhysNetDeps {
    pub iptables: Option<String>,
    pub is_root: bool,
    pub ip_forward_enabled: bool,
    pub missing: Vec<String>,
}

/// The requirements from what was found: the path of iptables, root
/// privileges, the text of `/proc/sys/net/ipv4/ip_forward`.
pub fn check(iptables: Option<String>, is_root: bool, ip_forward: Option<String>) -> (r: PhysNetDeps)
    ensures
        r.iptables == iptables,
        r.is_root == is_root,
        r.ip_forward_enabled == switched_on(ip_forward),
        crate::command::string_views(r.missing@) == {
            let a: Seq<Seq<char>> = if iptables.is_none() { seq!["iptables"@] } else { seq![] };
            let b: Seq<Seq<char>> = if !is_root { seq!["root access required"@] } else { seq![] };
            a + b
        },
{
    let fwd = match &ip_forward {
        Some(t) => {
            let v = crate::text::trim_vec(&crate::text::chars_of(t.as_str()));
            crate::text_order::eq_vec(&v, &crate::text::chars_of("1"))
        },
        None => false,
    };
    let mut missing: Vec<String> = Vec::new();
    if iptables.is_none() {
        missing.push("iptables".to_owned());
    }
    let ghost a = crate::command::string_views(missing@);
    if !is_root {
        missing.push("root access required".to_owned());
    }
    assert(crate::command::string_views(missing@) =~= {
        let a: Seq<Seq<char>> = if iptables.is_none() { seq!["iptables"@] } else { seq![] };
        let b: Seq<Seq<char>> = if !is_root { seq!["root access required"@] } else { seq![] };
        a + b
    });
    PhysNetDeps { iptables, is_root, ip_forward_enabled: fwd, missing }
}

} // verus!
