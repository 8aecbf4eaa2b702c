//! Which samples make up each figure of the metrics snapshot.
//!
//! Official metric names (ZeroTier 1.14+):
//!
//! | Name                                   | Labels                   |
//! |----------------------------------------|--------------------------|
//! | zt_packet                              | packet_type, direction   |
//! | zt_packet_error                        | error_type, direction    |
//! | zt_data                                | protocol, direction      |
//! | zt_num_networks                        | —                        |
//! | zt_network_multicast_groups_subscribed | network_id               |
//! | zt_network_packets                     | network_id, direction    |
//! | zt_peer_latency (histogram)            | node_id                  |
//! | zt_peer_path_count                     | node_id, status          |
//! | zt_peer_packets                        | node_id, direction       |
//! | zt_peer_packet_errors                  | node_id                  |
//!
//! The snapshot itself holds sums of sample values. This module decides, for
//! every figure, which samples count towards it (as indices into the sample
//! list); adding the values up is left to the caller.
use crate::metrics::parser::{sample_views, RawSample, SampleSpec};
use crate::text::{chars_of, lit, views};
use crate::text_order::{eq_vec, insert_sorted, sorted_listing, strictly_sorted};
use vstd::prelude::*;

verus! {

// ── Specifications ────────────────────────────────────────────────────────────

/// The value of label `k` (the last pair with that key wins).
pub open spec fn label_of(ls: Seq<(Seq<char>, Seq<char>)>, k: Seq<char>) -> Option<Seq<char>>
    decreases ls.len(),
{
    if ls.len() == 0 {
        None
    } else if ls.last().0 == k {
        Some(ls.last().1)
    } else {
        label_of(ls.drop_last(), k)
    }
}

/// A sample satisfies an optional label constraint `key == value`.
pub open spec fn holds(s: SampleSpec, c: Option<(Seq<char>, Seq<char>)>) -> bool {
    match c {
        None => true,
        Some(kv) => label_of(s.labels, kv.0) == Some(kv.1),
    }
}

/// A sample has metric name `name` and satisfies both constraints.
pub open spec fn sample_matches(
    s: SampleSpec,
    name: Seq<char>,
    c1: Option<(Seq<char>, Seq<char>)>,
    c2: Option<(Seq<char>, Seq<char>)>,
) -> bool {
    s.name == name && holds(s, c1) && holds(s, c2)
}

pub open spec fn positions(n: nat) -> Seq<usize> {
    Seq::new(n, |j: int| j as usize)
}

/// Indices of the samples that match, in increasing order.
pub open spec fn select_spec(
    ss: Seq<SampleSpec>,
    name: Seq<char>,
    c1: Option<(Seq<char>, Seq<char>)>,
    c2: Option<(Seq<char>, Seq<char>)>,
) -> Seq<usize> {
    positions(ss.len()).filter(|j: usize| sample_matches(ss[j as int], name, c1, c2))
}

/// Index of the first sample that matches.
pub open spec fn first_spec(
    ss: Seq<SampleSpec>,
    name: Seq<char>,
    c1: Option<(Seq<char>, Seq<char>)>,
) -> Option<usize> {
    let sel = select_spec(ss, name, c1, None);
    if sel.len() > 0 {
        Some(sel[0])
    } else {
        None
    }
}

pub open spec fn label_is(k: Seq<char>, v: Seq<char>) -> Option<(Seq<char>, Seq<char>)> {
    Some((k, v))
}

/// The values that label `key` takes in samples named one of `names`.
pub open spec fn label_values(ss: Seq<SampleSpec>, names: Seq<Seq<char>>, key: Seq<char>) -> Set<
    Seq<char>,
> {
    Set::new(
        |v: Seq<char>|
            exists|j: int|
                0 <= j < ss.len() && names.contains(#[trigger] ss[j].name) && label_of(
                    ss[j].labels,
                    key,
                ) == Some(v),
    )
}

pub open spec fn peer_metric_names() -> Seq<Seq<char>> {
    seq![
        "zt_peer_latency_sum"@,
        "zt_peer_latency_count"@,
        "zt_peer_path_count"@,
        "zt_peer_packets"@,
        "zt_peer_packet_errors"@,
    ]
}

pub open spec fn network_metric_names() -> Seq<Seq<char>> {
    seq!["zt_network_packets"@, "zt_network_multicast_groups_subscribed"@]
}

/// The samples that make up the figures of one peer.
pub struct PeerPlan {
    pub node_id: String,
    /// `zt_peer_latency_sum{node_id}` (first such sample).
    pub latency_sum: Option<usize>,
    /// `zt_peer_latency_count{node_id}` (first such sample).
    pub latency_count: Option<usize>,
    /// `zt_peer_path_count{node_id, status="active"}`.
    pub active_paths: Vec<usize>,
    /// `zt_peer_path_count{node_id}`, any status.
    pub total_paths: Vec<usize>,
    /// `zt_peer_packets{node_id, direction="rx"}`.
    pub rx_packets: Vec<usize>,
    /// `zt_peer_packets{node_id, direction="tx"}`.
    pub tx_packets: Vec<usize>,
    /// `zt_peer_packet_errors{node_id}`.
    pub packet_errors: Vec<usize>,
}

/// The samples that make up the figures of one network.
pub struct NetworkPlan {
    pub network_id: String,
    /// `zt_network_packets{network_id, direction="rx"}`.
    pub rx_packets: Vec<usize>,
    /// `zt_network_packets{network_id, direction="tx"}`.
    pub tx_packets: Vec<usize>,
    /// `zt_network_multicast_groups_subscribed{network_id}` (first such sample).
    pub multicast_subscriptions: Option<usize>,
}

/// The samples that make up one error type's count.
pub struct ErrorTypePlan {
    pub error_type: String,
    /// `zt_packet_error{error_type}`.
    pub samples: Vec<usize>,
}

/// For every figure of the snapshot, the samples that count towards it.
pub struct SnapshotPlan {
    /// `zt_data{direction="rx"}`.
    pub rx_bytes: Vec<usize>,
    /// `zt_data{direction="tx"}`.
    pub tx_bytes: Vec<usize>,
    /// `zt_packet{direction="rx"}`.
    pub rx_packets: Vec<usize>,
    /// `zt_packet{direction="tx"}`.
    pub tx_packets: Vec<usize>,
    /// The first `zt_num_networks` sample.
    pub num_networks: Option<usize>,
    /// Every `zt_packet_error` sample (the error total).
    pub errors: Vec<usize>,
    /// Error counts by `error_type`, by increasing type.
    pub error_types: Vec<ErrorTypePlan>,
    /// Every `zt_peer_latency_sum` sample.
    pub latency_sums: Vec<usize>,
    /// Every `zt_peer_latency_count` sample.
    pub latency_counts: Vec<usize>,
    /// One entry per peer, by increasing node ID.
    pub peers: Vec<PeerPlan>,
    /// One entry per network, by increasing network ID.
    pub networks: Vec<NetworkPlan>,
    /// How many peers the latency average includes: those with a latency
    /// sum or count sample.
    pub latency_peers: usize,
}

/// A peer that has a latency sum or count sample.
pub open spec fn in_latency_average(p: PeerPlan) -> bool {
    p.latency_sum is Some || p.latency_count is Some
}

/// The number of peers of `ps` the latency average includes.
pub open spec fn latency_peer_count(ps: Seq<PeerPlan>) -> nat
    decreases ps.len(),
{
    if ps.len() == 0 {
        0
    } else {
        latency_peer_count(ps.drop_last()) + if in_latency_average(ps.last()) { 1nat } else { 0nat }
    }
}

fn count_latency_peers(ps: &Vec<PeerPlan>) -> (r: usize)
    ensures
        r == latency_peer_count(ps@),
{
    let mut n: usize = 0;
    let mut i: usize = 0;
    while i < ps.len()
        invariant
            i <= ps.len(),
            n == latency_peer_count(ps@.take(i as int)),
            n <= i,
        decreases ps.len() - i,
    {
        assert(ps@.take(i + 1).drop_last() =~= ps@.take(i as int));
        if ps[i].latency_sum.is_some() || ps[i].latency_count.is_some() {
            n += 1;
        }
        i += 1;
    }
    assert(ps@.take(ps.len() as int) =~= ps@);
    n
}

/// The entry for peer `p` picks the samples its figures are made of.
pub open spec fn peer_plan_ok(ss: Seq<SampleSpec>, p: PeerPlan) -> bool {
    let id = p.node_id@;
    let node = label_is("node_id"@, id);
    &&& p.latency_sum == first_spec(ss, "zt_peer_latency_sum"@, node)
    &&& p.latency_count == first_spec(ss, "zt_peer_latency_count"@, node)
    &&& p.active_paths@ == select_spec(
        ss,
        "zt_peer_path_count"@,
        node,
        label_is("status"@, "active"@),
    )
    &&& p.total_paths@ == select_spec(ss, "zt_peer_path_count"@, node, None)
    &&& p.rx_packets@ == select_spec(ss, "zt_peer_packets"@, node, label_is("direction"@, "rx"@))
    &&& p.tx_packets@ == select_spec(ss, "zt_peer_packets"@, node, label_is("direction"@, "tx"@))
    &&& p.packet_errors@ == select_spec(ss, "zt_peer_packet_errors"@, node, None)
}

/// The entry for network `n` picks the samples its figures are made of.
pub open spec fn network_plan_ok(ss: Seq<SampleSpec>, n: NetworkPlan) -> bool {
    let net = label_is("network_id"@, n.network_id@);
    &&& n.rx_packets@ == select_spec(
        ss,
        "zt_network_packets"@,
        net,
        label_is("direction"@, "rx"@),
    )
    &&& n.tx_packets@ == select_spec(
        ss,
        "zt_network_packets"@,
        net,
        label_is("direction"@, "tx"@),
    )
    &&& n.multicast_subscriptions == first_spec(
        ss,
        "zt_network_multicast_groups_subscribed"@,
        net,
    )
}

pub open spec fn error_type_plan_ok(ss: Seq<SampleSpec>, e: ErrorTypePlan) -> bool {
    e.samples@ == select_spec(ss, "zt_packet_error"@, label_is("error_type"@, e.error_type@), None)
}

pub open spec fn peer_ids(ps: Seq<PeerPlan>) -> Seq<Seq<char>> {
    ps.map_values(|p: PeerPlan| p.node_id@)
}

pub open spec fn network_ids(ns: Seq<NetworkPlan>) -> Seq<Seq<char>> {
    ns.map_values(|n: NetworkPlan| n.network_id@)
}

pub open spec fn error_type_names(es: Seq<ErrorTypePlan>) -> Seq<Seq<char>> {
    es.map_values(|e: ErrorTypePlan| e.error_type@)
}

// ── Laws ──────────────────────────────────────────────────────────────────────

/// A label constraint, read directly off the sample's labels: absent, or the
/// label `key` has the value `value`.
pub open spec fn carries(ls: Seq<(Seq<char>, Seq<char>)>, c: Option<(Seq<char>, Seq<char>)>) -> bool {
    c matches Some(kv) ==> label_of(ls, kv.0) == Some(kv.1)
}

/// A selection holds exactly the samples with the given name that carry both
/// label constraints: every index it lists names such a sample, and every
/// such sample is listed.
pub proof fn lemma_selection_exact(
    ss: Seq<SampleSpec>,
    name: Seq<char>,
    c1: Option<(Seq<char>, Seq<char>)>,
    c2: Option<(Seq<char>, Seq<char>)>,
)
    ensures
        forall|k: int|
            #![trigger select_spec(ss, name, c1, c2)[k]]
            0 <= k < select_spec(ss, name, c1, c2).len() ==> {
                let j = select_spec(ss, name, c1, c2)[k] as int;
                &&& 0 <= j < ss.len()
                &&& ss[j].name == name
                &&& carries(ss[j].labels, c1)
                &&& carries(ss[j].labels, c2)
            },
        forall|j: usize|
            #![trigger select_spec(ss, name, c1, c2).contains(j)]
            j < ss.len() && ss[j as int].name == name && carries(ss[j as int].labels, c1)
                && carries(ss[j as int].labels, c2) ==> select_spec(ss, name, c1, c2).contains(j),
{
    let pred = |j: usize| sample_matches(ss[j as int], name, c1, c2);
    let ps = positions(ss.len());
    let sel = ps.filter(pred);
    assert(sel == select_spec(ss, name, c1, c2));
    assert forall|k: int| #![trigger sel[k]] 0 <= k < sel.len() implies {
        let j = sel[k] as int;
        &&& 0 <= j < ss.len()
        &&& ss[j].name == name
        &&& carries(ss[j].labels, c1)
        &&& carries(ss[j].labels, c2)
    } by {
        ps.lemma_filter_pred(pred, k);
        assert(sel.contains(sel[k]));
        ps.lemma_filter_contains_rev(pred, sel[k]);
        let i = choose|i: int| 0 <= i < ps.len() && ps[i] == sel[k];
        assert(ps[i] == i as usize);
    }
    assert forall|j: usize|
        j < ss.len() && ss[j as int].name == name && carries(ss[j as int].labels, c1)
            && carries(ss[j as int].labels, c2) implies sel.contains(j) by {
        assert(ps[j as int] == j);
        ps.lemma_filter_contains(pred, j as int);
    }
}

/// Each figure of a peer's entry is made of that peer's samples of the right
/// metric only: active paths carry `status="active"`, received and sent
/// packets carry `direction="rx"` and `direction="tx"`; and every active path
/// sample of the peer is counted among its active paths.
pub proof fn lemma_peer_figures(ss: Seq<SampleSpec>, p: PeerPlan)
    requires
        peer_plan_ok(ss, p),
    ensures
        forall|k: int|
            #![trigger p.active_paths@[k]]
            0 <= k < p.active_paths@.len() ==> {
                let s = ss[p.active_paths@[k] as int];
                &&& 0 <= p.active_paths@[k] < ss.len()
                &&& s.name == "zt_peer_path_count"@
                &&& label_of(s.labels, "node_id"@) == Some(p.node_id@)
                &&& label_of(s.labels, "status"@) == Some("active"@)
            },
        forall|k: int|
            #![trigger p.total_paths@[k]]
            0 <= k < p.total_paths@.len() ==> {
                let s = ss[p.total_paths@[k] as int];
                &&& 0 <= p.total_paths@[k] < ss.len()
                &&& s.name == "zt_peer_path_count"@
                &&& label_of(s.labels, "node_id"@) == Some(p.node_id@)
            },
        forall|k: int|
            #![trigger p.rx_packets@[k]]
            0 <= k < p.rx_packets@.len() ==> {
                let s = ss[p.rx_packets@[k] as int];
                &&& 0 <= p.rx_packets@[k] < ss.len()
                &&& s.name == "zt_peer_packets"@
                &&& label_of(s.labels, "node_id"@) == Some(p.node_id@)
                &&& label_of(s.labels, "direction"@) == Some("rx"@)
            },
        forall|k: int|
            #![trigger p.tx_packets@[k]]
            0 <= k < p.tx_packets@.len() ==> {
                let s = ss[p.tx_packets@[k] as int];
                &&& 0 <= p.tx_packets@[k] < ss.len()
                &&& s.name == "zt_peer_packets"@
                &&& label_of(s.labels, "node_id"@) == Some(p.node_id@)
                &&& label_of(s.labels, "direction"@) == Some("tx"@)
            },
        forall|j: usize|
            #![trigger p.active_paths@.contains(j)]
            j < ss.len() && ss[j as int].name == "zt_peer_path_count"@ && label_of(
                ss[j as int].labels,
                "node_id"@,
            ) == Some(p.node_id@) && label_of(ss[j as int].labels, "status"@) == Some("active"@)
                ==> p.active_paths@.contains(j),
{
    let node = label_is("node_id"@, p.node_id@);
    lemma_selection_exact(ss, "zt_peer_path_count"@, node, label_is("status"@, "active"@));
    lemma_selection_exact(ss, "zt_peer_path_count"@, node, None);
    lemma_selection_exact(ss, "zt_peer_packets"@, node, label_is("direction"@, "rx"@));
    lemma_selection_exact(ss, "zt_peer_packets"@, node, label_is("direction"@, "tx"@));
}

/// Each figure of a network's entry is made of that network's samples of the
/// right metric only: received and sent packets carry `direction="rx"` and
/// `direction="tx"`, and the multicast figure, where present, is a
/// subscription sample of that network.
pub proof fn lemma_network_figures(ss: Seq<SampleSpec>, n: NetworkPlan)
    requires
        network_plan_ok(ss, n),
    ensures
        forall|k: int|
            #![trigger n.rx_packets@[k]]
            0 <= k < n.rx_packets@.len() ==> {
                let s = ss[n.rx_packets@[k] as int];
                &&& 0 <= n.rx_packets@[k] < ss.len()
                &&& s.name == "zt_network_packets"@
                &&& label_of(s.labels, "network_id"@) == Some(n.network_id@)
                &&& label_of(s.labels, "direction"@) == Some("rx"@)
            },
        forall|k: int|
            #![trigger n.tx_packets@[k]]
            0 <= k < n.tx_packets@.len() ==> {
                let s = ss[n.tx_packets@[k] as int];
                &&& 0 <= n.tx_packets@[k] < ss.len()
                &&& s.name == "zt_network_packets"@
                &&& label_of(s.labels, "network_id"@) == Some(n.network_id@)
                &&& label_of(s.labels, "direction"@) == Some("tx"@)
            },
        n.multicast_subscriptions matches Some(j) ==> {
            &&& j < ss.len()
            &&& ss[j as int].name == "zt_network_multicast_groups_subscribed"@
            &&& label_of(ss[j as int].labels, "network_id"@) == Some(n.network_id@)
        },
{
    let net = label_is("network_id"@, n.network_id@);
    lemma_selection_exact(ss, "zt_network_packets"@, net, label_is("direction"@, "rx"@));
    lemma_selection_exact(ss, "zt_network_packets"@, net, label_is("direction"@, "tx"@));
    lemma_selection_exact(ss, "zt_network_multicast_groups_subscribed"@, net, None);
}

// ── Implementation ────────────────────────────────────────────────────────────

pub open spec fn cview(c: Option<(Vec<char>, Vec<char>)>) -> Option<(Seq<char>, Seq<char>)> {
    match c {
        None => None,
        Some(kv) => Some((kv.0@, kv.1@)),
    }
}

fn label_value(labels: &Vec<(String, String)>, key: &Vec<char>) -> (r: Option<Vec<char>>)
    ensures
        match r {
            Some(v) => label_of(crate::metrics::parser::label_views(labels@), key@) == Some(v@),
            None => label_of(crate::metrics::parser::label_views(labels@), key@) is None,
        },
{
    let ghost lv = crate::metrics::parser::label_views(labels@);
    let mut i = labels.len();
    assert(lv.take(lv.len() as int) =~= lv);
    while i > 0
        invariant
            i <= labels.len(),
            lv == crate::metrics::parser::label_views(labels@),
            label_of(lv, key@) == label_of(lv.take(i as int), key@),
        decreases i,
    {
        let k = chars_of(labels[i - 1].0.as_str());
        assert(lv.take(i as int).drop_last() =~= lv.take(i - 1));
        assert(lv.take(i as int).last() == lv[i - 1]);
        if eq_vec(&k, key) {
            return Some(chars_of(labels[i - 1].1.as_str()));
        }
        i -= 1;
    }
    None
}

fn holds_exec(s: &RawSample, c: &Option<(Vec<char>, Vec<char>)>) -> (r: bool)
    ensures
        r == holds(s@, cview(*c)),
{
    match c {
        None => true,
        Some(kv) => match label_value(&s.labels, &kv.0) {
            None => false,
            Some(v) => eq_vec(&v, &kv.1),
        },
    }
}

fn matches_exec(
    s: &RawSample,
    name: &Vec<char>,
    c1: &Option<(Vec<char>, Vec<char>)>,
    c2: &Option<(Vec<char>, Vec<char>)>,
) -> (r: bool)
    ensures
        r == sample_matches(s@, name@, cview(*c1), cview(*c2)),
{
    eq_vec(&chars_of(s.name.as_str()), name) && holds_exec(s, c1) && holds_exec(s, c2)
}

/// Indices of the samples named `name` that satisfy both label constraints.
pub fn select(
    samples: &Vec<RawSample>,
    name: &Vec<char>,
    c1: &Option<(Vec<char>, Vec<char>)>,
    c2: &Option<(Vec<char>, Vec<char>)>,
) -> (r: Vec<usize>)
    ensures
        r@ == select_spec(sample_views(samples@), name@, cview(*c1), cview(*c2)),
{
    let ghost ss = sample_views(samples@);
    let ghost p = |j: usize| sample_matches(ss[j as int], name@, cview(*c1), cview(*c2));
    let mut out: Vec<usize> = Vec::new();
    let mut i: usize = 0;
    while i < samples.len()
        invariant
            i <= samples.len(),
            ss == sample_views(samples@),
            p == (|j: usize| sample_matches(ss[j as int], name@, cview(*c1), cview(*c2))),
            out@ == positions(i as nat).filter(p),
        decreases samples.len() - i,
    {
        let ghost pos1 = positions((i + 1) as nat);
        assert(pos1.drop_last() =~= positions(i as nat));
        assert(pos1.last() == i);
        assert(ss[i as int] == samples@[i as int]@);
        let m = matches_exec(&samples[i], name, c1, c2);
        assert(m == p(i));
        reveal_with_fuel(Seq::<usize>::filter, 1);
        assert(pos1.filter(p) == (if p(pos1.last()) {
            pos1.drop_last().filter(p).push(pos1.last())
        } else {
            pos1.drop_last().filter(p)
        }));
        if m {
            out.push(i);
        }
        i += 1;
    }
    out
}

/// Index of the first sample named `name` that satisfies the label constraint.
pub fn first(samples: &Vec<RawSample>, name: &Vec<char>, c1: &Option<(Vec<char>, Vec<char>)>) -> (r:
    Option<usize>)
    ensures
        r == first_spec(sample_views(samples@), name@, cview(*c1)),
{
    let sel = select(samples, name, c1, &None);
    if sel.len() > 0 {
        Some(sel[0])
    } else {
        None
    }
}

/// The values of label `key` among samples named one of `names`, in
/// increasing order, each once.
pub fn sorted_label_values(samples: &Vec<RawSample>, names: &Vec<Vec<char>>, key: &Vec<char>) -> (r:
    Vec<Vec<char>>)
    ensures
        sorted_listing(views(r@), label_values(sample_views(samples@), views(names@), key@)),
{
    let ghost ss = sample_views(samples@);
    let ghost ns = views(names@);
    let mut out: Vec<Vec<char>> = Vec::new();
    let mut i: usize = 0;
    while i < samples.len()
        invariant
            i <= samples.len(),
            ss == sample_views(samples@),
            ns == views(names@),
            strictly_sorted(views(out@)),
            forall|v: Seq<char>|
                views(out@).contains(v) <==> exists|j: int|
                    0 <= j < i && ns.contains(#[trigger] ss[j].name) && label_of(ss[j].labels, key@)
                        == Some(v),
        decreases samples.len() - i,
    {
        assert(ss[i as int] == samples@[i as int]@);
        let nm = chars_of(samples[i].name.as_str());
        let mut named = false;
        let mut k: usize = 0;
        while k < names.len()
            invariant
                k <= names.len(),
                ns == views(names@),
                nm@ == ss[i as int].name,
                named == (exists|m: int| 0 <= m < k && ns[m] == nm@),
            decreases names.len() - k,
        {
            assert(ns[k as int] == names@[k as int]@);
            if eq_vec(&names[k], &nm) {
                named = true;
            }
            k += 1;
        }
        let ghost before = views(out@);
        let ghost mut added: Option<Seq<char>> = None;
        if named {
            match label_value(&samples[i].labels, key) {
                Some(v) => {
                    let ghost vv = v@;
                    insert_sorted(&mut out, v);
                    proof {
                        added = Some(vv);
                    }
                },
                None => {},
            }
        }
        assert forall|v: Seq<char>|
            views(out@).contains(v) <==> exists|j: int|
                0 <= j < i + 1 && ns.contains(#[trigger] ss[j].name) && label_of(
                    ss[j].labels,
                    key@,
                ) == Some(v) by {
            if named {
                assert(ns.contains(ss[i as int].name));
            } else {
                assert(!ns.contains(ss[i as int].name));
            }
        }
        i += 1;
    }
    assert forall|v: Seq<char>|
        views(out@).contains(v) <==> label_values(ss, ns, key@).contains(v) by {}
    out
}

fn kv(k: &str, v: &Vec<char>) -> (r: Option<(Vec<char>, Vec<char>)>)
    ensures
        cview(r) == label_is(k@, v@),
{
    Some((lit(k), v.clone()))
}

fn kv2(k: &str, v: &str) -> (r: Option<(Vec<char>, Vec<char>)>)
    ensures
        cview(r) == label_is(k@, v@),
{
    Some((lit(k), lit(v)))
}

fn peer_plan(samples: &Vec<RawSample>, id: &Vec<char>) -> (p: PeerPlan)
    ensures
        p.node_id@ == id@,
        peer_plan_ok(sample_views(samples@), p),
{
    let node = kv("node_id", id);
    PeerPlan {
        node_id: crate::text::string_of(id),
        latency_sum: first(samples, &lit("zt_peer_latency_sum"), &node),
        latency_count: first(samples, &lit("zt_peer_latency_count"), &node),
        active_paths: select(
            samples,
            &lit("zt_peer_path_count"),
            &node,
            &kv2("status", "active"),
        ),
        total_paths: select(samples, &lit("zt_peer_path_count"), &node, &None),
        rx_packets: select(samples, &lit("zt_peer_packets"), &node, &kv2("direction", "rx")),
        tx_packets: select(samples, &lit("zt_peer_packets"), &node, &kv2("direction", "tx")),
        packet_errors: select(samples, &lit("zt_peer_packet_errors"), &node, &None),
    }
}

fn network_plan(samples: &Vec<RawSample>, id: &Vec<char>) -> (n: NetworkPlan)
    ensures
        n.network_id@ == id@,
        network_plan_ok(sample_views(samples@), n),
{
    let net = kv("network_id", id);
    NetworkPlan {
        network_id: crate::text::string_of(id),
        rx_packets: select(samples, &lit("zt_network_packets"), &net, &kv2("direction", "rx")),
        tx_packets: select(samples, &lit("zt_network_packets"), &net, &kv2("direction", "tx")),
        multicast_subscriptions: first(
            samples,
            &lit("zt_network_multicast_groups_subscribed"),
            &net,
        ),
    }
}

fn names_of(a: &str, b: &str, c: &str, d: &str, e: &str, count: usize) -> (r: Vec<Vec<char>>)
    requires
        count == 2 || count == 5,
    ensures
        count == 5 ==> views(r@) == seq![a@, b@, c@, d@, e@],
        count == 2 ==> views(r@) == seq![a@, b@],
{
    let mut r: Vec<Vec<char>> = Vec::new();
    r.push(lit(a));
    r.push(lit(b));
    if count == 5 {
        r.push(lit(c));
        r.push(lit(d));
        r.push(lit(e));
        assert(views(r@) =~= seq![a@, b@, c@, d@, e@]);
    } else {
        assert(views(r@) =~= seq![a@, b@]);
    }
    r
}

/// Decides, for every figure of the snapshot, which samples count towards it.
pub fn build_snapshot(samples: &Vec<RawSample>) -> (p: SnapshotPlan)
    ensures
        ({
            let ss = sample_views(samples@);
            &&& p.rx_bytes@ == select_spec(ss, "zt_data"@, label_is("direction"@, "rx"@), None)
            &&& p.tx_bytes@ == select_spec(ss, "zt_data"@, label_is("direction"@, "tx"@), None)
            &&& p.rx_packets@ == select_spec(
                ss,
                "zt_packet"@,
                label_is("direction"@, "rx"@),
                None,
            )
            &&& p.tx_packets@ == select_spec(
                ss,
                "zt_packet"@,
                label_is("direction"@, "tx"@),
                None,
            )
            &&& p.num_networks == first_spec(ss, "zt_num_networks"@, None)
            &&& p.errors@ == select_spec(ss, "zt_packet_error"@, None, None)
            &&& sorted_listing(
                error_type_names(p.error_types@),
                label_values(ss, seq!["zt_packet_error"@], "error_type"@),
            )
            &&& forall|i: int|
                0 <= i < p.error_types@.len() ==> error_type_plan_ok(ss, #[trigger] p.error_types@[i])
            &&& p.latency_sums@ == select_spec(ss, "zt_peer_latency_sum"@, None, None)
            &&& p.latency_counts@ == select_spec(ss, "zt_peer_latency_count"@, None, None)
            &&& sorted_listing(peer_ids(p.peers@), label_values(ss, peer_metric_names(), "node_id"@))
            &&& forall|i: int| 0 <= i < p.peers@.len() ==> peer_plan_ok(ss, #[trigger] p.peers@[i])
            &&& sorted_listing(
                network_ids(p.networks@),
                label_values(ss, network_metric_names(), "network_id"@),
            )
            &&& forall|i: int|
                0 <= i < p.networks@.len() ==> network_plan_ok(ss, #[trigger] p.networks@[i])
            &&& p.latency_peers == latency_peer_count(p.peers@)
        }),
{
    let ghost ss = sample_views(samples@);
    let err_names = {
        let mut v: Vec<Vec<char>> = Vec::new();
        v.push(lit("zt_packet_error"));
        assert(views(v@) =~= seq!["zt_packet_error"@]);
        v
    };
    let types = sorted_label_values(samples, &err_names, &lit("error_type"));
    let mut error_types: Vec<ErrorTypePlan> = Vec::new();
    let mut i: usize = 0;
    while i < types.len()
        invariant
            i <= types.len(),
            ss == sample_views(samples@),
            error_types@.len() == i,
            forall|k: int| 0 <= k < i ==> error_type_plan_ok(ss, #[trigger] error_types@[k]),
            forall|k: int| 0 <= k < i ==> (#[trigger] error_types@[k]).error_type@ == types@[k]@,
        decreases types.len() - i,
    {
        let t = &types[i];
        let e = ErrorTypePlan {
            error_type: crate::text::string_of(t),
            samples: select(samples, &lit("zt_packet_error"), &kv("error_type", t), &None),
        };
        error_types.push(e);
        i += 1;
    }
    assert(error_type_names(error_types@) =~= views(types@));

    let ids = sorted_label_values(
        samples,
        &names_of(
            "zt_peer_latency_sum",
            "zt_peer_latency_count",
            "zt_peer_path_count",
            "zt_peer_packets",
            "zt_peer_packet_errors",
            5,
        ),
        &lit("node_id"),
    );
    let mut peers: Vec<PeerPlan> = Vec::new();
    let mut i: usize = 0;
    while i < ids.len()
        invariant
            i <= ids.len(),
            ss == sample_views(samples@),
            peers@.len() == i,
            forall|k: int| 0 <= k < i ==> peer_plan_ok(ss, #[trigger] peers@[k]),
            forall|k: int| 0 <= k < i ==> (#[trigger] peers@[k]).node_id@ == ids@[k]@,
        decreases ids.len() - i,
    {
        let pp = peer_plan(samples, &ids[i]);
        peers.push(pp);
        i += 1;
    }
    assert(peer_ids(peers@) =~= views(ids@));

    let nids = sorted_label_values(
        samples,
        &names_of("zt_network_packets", "zt_network_multicast_groups_subscribed", "", "", "", 2),
        &lit("network_id"),
    );
    let mut networks: Vec<NetworkPlan> = Vec::new();
    let mut i: usize = 0;
    while i < nids.len()
        invariant
            i <= nids.len(),
            ss == sample_views(samples@),
            networks@.len() == i,
            forall|k: int| 0 <= k < i ==> network_plan_ok(ss, #[trigger] networks@[k]),
            forall|k: int| 0 <= k < i ==> (#[trigger] networks@[k]).network_id@ == nids@[k]@,
        decreases nids.len() - i,
    {
        let np = network_plan(samples, &nids[i]);
        networks.push(np);
        i += 1;
    }
    assert(network_ids(networks@) =~= views(nids@));

    let latency_peers = count_latency_peers(&peers);
    SnapshotPlan {
        latency_peers,
        rx_bytes: select(samples, &lit("zt_data"), &kv2("direction", "rx"), &None),
        tx_bytes: select(samples, &lit("zt_data"), &kv2("direction", "tx"), &None),
        rx_packets: select(samples, &lit("zt_packet"), &kv2("direction", "rx"), &None),
        tx_packets: select(samples, &lit("zt_packet"), &kv2("direction", "tx"), &None),
        num_networks: first(samples, &lit("zt_num_networks"), &None),
        errors: select(samples, &lit("zt_packet_error"), &None, &None),
        error_types,
        latency_sums: select(samples, &lit("zt_peer_latency_sum"), &None, &None),
        latency_counts: select(samples, &lit("zt_peer_latency_count"), &None, &None),
        peers,
        networks,
    }
}

} // verus!
