//! Lexicographic order on character sequences and sorted sets of them.
//!
//! Comparing by code point, character by character, orders UTF-8 strings the
//! same way as comparing their bytes does, which is how `String` orders.
use vstd::prelude::*;

verus! {

/// `a` comes strictly before `b`.
pub open spec fn seq_lt(a: Seq<char>, b: Seq<char>) -> bool
    decreases a.len(),
{
    if a.len() == 0 {
        b.len() > 0
    } else if b.len() == 0 {
        false
    } else if a[0] != b[0] {
        a[0] < b[0]
    } else {
        seq_lt(a.drop_first(), b.drop_first())
    }
}

/// `s` is strictly increasing.
pub open spec fn strictly_sorted(s: Seq<Seq<char>>) -> bool {
    forall|i: int, j: int| 0 <= i < j < s.len() ==> seq_lt(#[trigger] s[i], #[trigger] s[j])
}

/// `s` lists exactly the members of `set`, in increasing order.
pub open spec fn sorted_listing(s: Seq<Seq<char>>, set: Set<Seq<char>>) -> bool {
    &&& strictly_sorted(s)
    &&& forall|v: Seq<char>| s.contains(v) <==> set.contains(v)
}

pub proof fn lemma_lt_irreflexive(a: Seq<char>)
    ensures
        !seq_lt(a, a),
    decreases a.len(),
{
    if a.len() > 0 {
        lemma_lt_irreflexive(a.drop_first());
    }
}

pub proof fn lemma_lt_transitive(a: Seq<char>, b: Seq<char>, c: Seq<char>)
    requires
        seq_lt(a, b),
        seq_lt(b, c),
    ensures
        seq_lt(a, c),
    decreases a.len(),
{
    if a.len() > 0 && b.len() > 0 && c.len() > 0 {
        if a[0] == b[0] && b[0] == c[0] {
            lemma_lt_transitive(a.drop_first(), b.drop_first(), c.drop_first());
        }
    }
}

pub proof fn lemma_lt_total(a: Seq<char>, b: Seq<char>)
    ensures
        a != b ==> seq_lt(a, b) || seq_lt(b, a),
    decreases a.len(),
{
    if a.len() > 0 && b.len() > 0 && a[0] == b[0] {
        lemma_lt_total(a.drop_first(), b.drop_first());
        if a != b {
            if a.drop_first() == b.drop_first() {
                assert(a =~= seq![a[0]] + a.drop_first());
                assert(b =~= seq![b[0]] + b.drop_first());
            }
        }
    } else if a.len() == 0 && b.len() == 0 {
        assert(a =~= b);
    }
}

/// Whether `a` and `b` hold the same characters.
pub fn eq_vec(a: &Vec<char>, b: &Vec<char>) -> (r: bool)
    ensures
        r == (a@ == b@),
{
    if a.len() != b.len() {
        return false;
    }
    let mut i: usize = 0;
    while i < a.len()
        invariant
            i <= a.len() == b.len(),
            forall|j: int| 0 <= j < i ==> a@[j] == b@[j],
        decreases a.len() - i,
    {
        if a[i] != b[i] {
            return false;
        }
        i += 1;
    }
    assert(a@ =~= b@);
    true
}

/// Whether `a` comes strictly before `b`.
pub fn lt_vec(a: &Vec<char>, b: &Vec<char>) -> (r: bool)
    ensures
        r == seq_lt(a@, b@),
{
    let mut i: usize = 0;
    assert(a@.skip(0) =~= a@);
    assert(b@.skip(0) =~= b@);
    while i < a.len() && i < b.len() && a[i] == b[i]
        invariant
            i <= a.len(),
            i <= b.len(),
            seq_lt(a@, b@) == seq_lt(a@.skip(i as int), b@.skip(i as int)),
        decreases a.len() - i,
    {
        assert(a@.skip(i as int).drop_first() =~= a@.skip(i + 1));
        assert(b@.skip(i as int).drop_first() =~= b@.skip(i + 1));
        i += 1;
    }
    if i == a.len() {
        i < b.len()
    } else if i == b.len() {
        false
    } else {
        a[i] < b[i]
    }
}

/// Adds `x` to the strictly increasing `v` unless it is there already.
pub fn insert_sorted(v: &mut Vec<Vec<char>>, x: Vec<char>)
    requires
        strictly_sorted(crate::text::views(old(v)@)),
    ensures
        strictly_sorted(crate::text::views(final(v)@)),
        forall|y: Seq<char>|
            crate::text::views(final(v)@).contains(y) <==> (crate::text::views(old(v)@).contains(y)
                || y == x@),
{
    let ghost old_v = crate::text::views(v@);
    let mut i: usize = 0;
    while i < v.len() && lt_vec(&v[i], &x)
        invariant
            i <= v.len(),
            crate::text::views(v@) == old_v,
            strictly_sorted(old_v),
            forall|j: int| 0 <= j < i ==> seq_lt(#[trigger] old_v[j], x@),
        decreases v.len() - i,
    {
        assert(old_v[i as int] == v@[i as int]@);
        i += 1;
    }
    if i < v.len() {
        assert(old_v[i as int] == v@[i as int]@);
    }
    if i < v.len() && eq_vec(&v[i], &x) {
        assert(old_v.contains(x@));
        return;
    }
    proof {
        if i < v.len() {
            lemma_lt_total(old_v[i as int], x@);
            assert(seq_lt(x@, old_v[i as int]));
        }
    }
    let ghost xv = x@;
    v.insert(i, x);
    let ghost nv = crate::text::views(v@);
    assert(nv =~= old_v.insert(i as int, xv));
    assert forall|a: int, b: int| 0 <= a < b < nv.len() implies seq_lt(#[trigger] nv[a], #[trigger] nv[b]) by {
        if b < i {
            assert(nv[a] == old_v[a] && nv[b] == old_v[b]);
        } else if b == i {
            assert(nv[a] == old_v[a]);
        } else if a < i {
            assert(nv[a] == old_v[a] && nv[b] == old_v[b - 1]);
            assert(seq_lt(old_v[a], xv));
            if b - 1 == i as int {
                assert(seq_lt(xv, old_v[b - 1]));
            } else {
                assert(seq_lt(old_v[i as int], old_v[b - 1]));
                lemma_lt_transitive(xv, old_v[i as int], old_v[b - 1]);
            }
            lemma_lt_transitive(old_v[a], xv, old_v[b - 1]);
        } else if a == i {
            assert(nv[b] == old_v[b - 1]);
            if b - 1 > i as int {
                assert(seq_lt(old_v[i as int], old_v[b - 1]));
                lemma_lt_transitive(xv, old_v[i as int], old_v[b - 1]);
            }
        } else {
            assert(nv[a] == old_v[a - 1] && nv[b] == old_v[b - 1]);
        }
    }
    assert forall|y: Seq<char>| nv.contains(y) <==> (old_v.contains(y) || y == xv) by {
        if nv.contains(y) {
            let k = choose|k: int| 0 <= k < nv.len() && nv[k] == y;
            if k < i {
                assert(old_v[k] == y);
            } else if k > i {
                assert(old_v[k - 1] == y);
            }
        }
        if old_v.contains(y) {
            let k = choose|k: int| 0 <= k < old_v.len() && old_v[k] == y;
            if k < i {
                assert(nv[k] == y);
            } else {
                assert(nv[k + 1] == y);
            }
        }
        if y == xv {
            assert(nv[i as int] == y);
        }
    }
}

} // verus!
