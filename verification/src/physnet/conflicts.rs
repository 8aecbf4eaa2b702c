//! What stands in the way of physical network routing.
use crate::text::{chars_of, split, split_vec, string_of, views};
use vstd::prelude::*;

verus! {

/// The problems found.
#[derive(Debug, Clone)]
pub struct ConflictReport {
    pub conflicts: Vec<Conflict>,
    pub warnings: Vec<String>,
}

/// One problem.
#[derive(Debug, Clone)]
pub struct Conflict {
    pub severity: ConflictSeverity,
    pub message: String,
    pub field: Option<String>,
}

#[derive(Debug, Clone, Copy, PartialEq, Eq, Structural)]
pub enum ConflictSeverity {
    Error,
    Warning,
}

/// The model of a conflict.
pub struct ConflictView {
    pub severity: ConflictSeverity,
    pub message: Seq<char>,
    pub field: Option<Seq<char>>,
}

impl View for Conflict {
    type V = ConflictView;

    open spec fn view(&self) -> ConflictView {
        ConflictView {
            severity: self.severity,
            message: self.message@,
            field: match self.field {
                Some(f) => Some(f@),
                None => None,
            },
        }
    }
}

pub open spec fn conflict_views(v: Seq<Conflict>) -> Seq<ConflictView> {
    v.map_values(|c: Conflict| c@)
}

/// The first two dot-separated fields of the address part (before any `/`)
/// of a subnet, joined by a dot.
pub open spec fn network_head(subnet: Seq<char>) -> Seq<char> {
    let fields = split(split(subnet, '/')[0], '.');
    if fields.len() >= 2 {
        fields[0] + "."@ + fields[1]
    } else {
        fields[0]
    }
}

/// A rough overlap test: the two subnets start with the same two fields.
pub open spec fn overlap_spec(a: Seq<char>, b: Seq<char>) -> bool {
    network_head(a).len() > 0 && network_head(a) == network_head(b)
}

fn head_of(subnet: &str) -> (r: Vec<char>)
    ensures
        r@ == network_head(subnet@),
{
    let c = chars_of(subnet);
    let parts = split_vec(&c, '/');
    proof {
        crate::text::lemma_split_nonempty(c@, '/');
    }
    let fields = split_vec(&parts[0], '.');
    proof {
        crate::text::lemma_split_nonempty(parts@[0]@, '.');
    }
    if fields.len() >= 2 {
        let mut r = crate::text::concat(&fields[0], &crate::text::lit("."));
        r = crate::text::concat(&r, &fields[1]);
        r
    } else {
        crate::text::concat(&fields[0], &Vec::new())
    }
}

/// Whether two subnets look like they overlap (same first two fields).
pub fn subnets_overlap(a: &str, b: &str) -> (r: bool)
    ensures
        r == overlap_spec(a@, b@),
{
    let ha = head_of(a);
    let hb = head_of(b);
    ha.len() > 0 && crate::text_order::eq_vec(&ha, &hb)
}

pub open spec fn exitnode_message() -> Seq<char> {
    "Exit Node is also active. iptables rules may conflict — review POSTROUTING/FORWARD chains manually."@
}

pub open spec fn bridge_message() -> Seq<char> {
    "Layer 2 Bridge is active. Cannot use Physical Routing and L2 Bridge simultaneously."@
}

pub open spec fn overlap_message(phy: Seq<char>, zt: Seq<char>) -> Seq<char> {
    "Physical subnet "@ + phy + " overlaps with ZeroTier subnet "@ + zt
        + ". This may cause routing loops. Use the /23 trick for the managed route."@
}

/// The conflicts `check` reports, in order.
pub open spec fn conflicts_spec(phy: Seq<char>, zt: Option<Seq<char>>, exitnode_enabled: bool, bridge_enabled: bool) -> Seq<ConflictView> {
    let a: Seq<ConflictView> = if exitnode_enabled {
        seq![ConflictView { severity: ConflictSeverity::Warning, message: exitnode_message(), field: None }]
    } else {
        seq![]
    };
    let b: Seq<ConflictView> = if bridge_enabled {
        seq![ConflictView { severity: ConflictSeverity::Error, message: bridge_message(), field: None }]
    } else {
        seq![]
    };
    let c: Seq<ConflictView> = match zt {
        Some(z) => if overlap_spec(phy, z) {
            seq![ConflictView {
                severity: ConflictSeverity::Warning,
                message: overlap_message(phy, z),
                field: Some("phy_subnet"@),
            }]
        } else {
            seq![]
        },
        None => seq![],
    };
    a + b + c
}

/// Checks a routing request against the exit node and the bridge, and the
/// physical subnet against the ZeroTier one.
pub fn check(phy_subnet: &str, zt_subnet: Option<&str>, exitnode_enabled: bool, bridge_enabled: bool) -> (r: ConflictReport)
    ensures
        conflict_views(r.conflicts@) == conflicts_spec(
            phy_subnet@,
            match zt_subnet {
                Some(z) => Some(z@),
                None => None,
            },
            exitnode_enabled,
            bridge_enabled,
        ),
        r.warnings@.len() == 0,
{
    let ghost zv = match zt_subnet {
        Some(z) => Some(z@),
        None => None::<Seq<char>>,
    };
    let mut conflicts: Vec<Conflict> = Vec::new();
    if exitnode_enabled {
        conflicts.push(Conflict {
            severity: ConflictSeverity::Warning,
            message: "Exit Node is also active. iptables rules may conflict — review POSTROUTING/FORWARD chains manually.".to_owned(),
            field: None,
        });
    }
    if bridge_enabled {
        conflicts.push(Conflict {
            severity: ConflictSeverity::Error,
            message: "Layer 2 Bridge is active. Cannot use Physical Routing and L2 Bridge simultaneously.".to_owned(),
            field: None,
        });
    }
    let ghost ab = conflict_views(conflicts@);
    if let Some(zt) = zt_subnet {
        if subnets_overlap(phy_subnet, zt) {
            let mut m = crate::text::lit("Physical subnet ");
            crate::text::push_str(&mut m, phy_subnet);
            crate::text::push_str(&mut m, " overlaps with ZeroTier subnet ");
            crate::text::push_str(&mut m, zt);
            crate::text::push_str(&mut m, ". This may cause routing loops. Use the /23 trick for the managed route.");
            conflicts.push(Conflict {
                severity: ConflictSeverity::Warning,
                message: string_of(&m),
                field: Some("phy_subnet".to_owned()),
            });
        }
    }
    assert(conflict_views(conflicts@) =~= conflicts_spec(phy_subnet@, zv, exitnode_enabled, bridge_enabled));
    ConflictReport { conflicts, warnings: Vec::new() }
}

} // verus!
