//! The host's network interfaces and their addresses.
use crate::text::{chars_of, slice, split, split_vec, string_of, trim, trim_vec, views};
use crate::text_order::{eq_vec, insert_sorted, sorted_listing, strictly_sorted};
use vstd::prelude::*;

verus! {

/// An interface with the addresses it carries.
#[derive(Debug, Clone)]
pub struct NetworkInterface {
    pub name: String,
    pub addresses: Vec<String>,
    pub is_zerotier: bool,
}

/// ZeroTier names its interfaces `zt` followed by an identifier.
pub open spec fn is_zerotier_name(name: Seq<char>) -> bool {
    name.len() > 2 && name[0] == 'z' && name[1] == 't'
}

/// Whether `name` is a ZeroTier interface name.
pub fn is_zerotier_iface(name: &str) -> (r: bool)
    ensures
        r == is_zerotier_name(name@),
{
    let c = chars_of(name);
    c.len() > 2 && c[0] == 'z' && c[1] == 't'
}

/// The interface named on a line of `/proc/net/dev`: the trimmed text
/// before the first `:`.
pub open spec fn dev_line_name(line: Seq<char>) -> Seq<char> {
    trim(split(line, ':')[0])
}

/// The interface names that `/proc/net/dev` lists: one per line after the
/// two header lines, blank names skipped.
pub open spec fn dev_names(content: Seq<char>) -> Set<Seq<char>> {
    let ls = crate::sysctl::lines(content);
    Set::new(|n: Seq<char>| exists|i: int| 2 <= i < ls.len() && dev_line_name(ls[i]) == n && n.len() > 0)
}

/// All interface names: those of `/proc/net/dev` and those with an address.
pub open spec fn all_names(dev: Option<String>, addrs: Seq<(String, String)>) -> Set<Seq<char>> {
    let from_dev = match dev {
        Some(c) => dev_names(c@),
        None => Set::empty(),
    };
    from_dev.union(Set::new(|n: Seq<char>| exists|i: int| 0 <= i < addrs.len() && addrs[i].0@ == n))
}

/// The addresses listed for `name`, in the order given.
pub open spec fn addresses_of(addrs: Seq<(String, String)>, name: Seq<char>) -> Seq<Seq<char>>
    decreases addrs.len(),
{
    if addrs.len() == 0 {
        Seq::empty()
    } else {
        let rest = addresses_of(addrs.drop_last(), name);
        if addrs.last().0@ == name {
            rest.push(addrs.last().1@)
        } else {
            rest
        }
    }
}

pub open spec fn names_of(v: Seq<NetworkInterface>) -> Seq<Seq<char>> {
    v.map_values(|i: NetworkInterface| i.name@)
}

/// Some line of `ls` at a position in `2..hi` names `n`.
pub open spec fn seen(ls: Seq<Seq<char>>, hi: int, n: Seq<char>) -> bool {
    exists|j: int| 2 <= j < hi && j < ls.len() && #[trigger] dev_line_name(ls[j]) == n && n.len() > 0
}

proof fn lemma_seen_step(ls: Seq<Seq<char>>, i: int, n: Seq<char>)
    requires
        2 <= i < ls.len(),
    ensures
        seen(ls, i + 1, n) == (seen(ls, i, n) || (dev_line_name(ls[i]) == n && n.len() > 0)),
{
    if seen(ls, i + 1, n) {
        let j = choose|j: int| 2 <= j < i + 1 && j < ls.len() && #[trigger] dev_line_name(ls[j]) == n && n.len() > 0;
        if j < i {
            assert(seen(ls, i, n));
        }
    }
    if seen(ls, i, n) {
        let j = choose|j: int| 2 <= j < i && j < ls.len() && #[trigger] dev_line_name(ls[j]) == n && n.len() > 0;
        assert(seen(ls, i + 1, n));
    }
    if dev_line_name(ls[i]) == n && n.len() > 0 {
        assert(seen(ls, i + 1, n));
    }
}

/// Some pair among the first `k` of `addrs` names `n`.
pub open spec fn named(addrs: Seq<(String, String)>, k: int, n: Seq<char>) -> bool {
    exists|j: int| 0 <= j < k && j < addrs.len() && #[trigger] addrs[j].0@ == n
}

proof fn lemma_named_step(addrs: Seq<(String, String)>, k: int, n: Seq<char>)
    requires
        0 <= k < addrs.len(),
    ensures
        named(addrs, k + 1, n) == (named(addrs, k, n) || addrs[k].0@ == n),
{
    if named(addrs, k + 1, n) {
        let j = choose|j: int| 0 <= j < k + 1 && j < addrs.len() && #[trigger] addrs[j].0@ == n;
        if j < k {
            assert(named(addrs, k, n));
        }
    }
    if named(addrs, k, n) {
        let j = choose|j: int| 0 <= j < k && j < addrs.len() && #[trigger] addrs[j].0@ == n;
        assert(named(addrs, k + 1, n));
    }
    if addrs[k].0@ == n {
        assert(named(addrs, k + 1, n));
    }
}

fn add_dev_names(names: &mut Vec<Vec<char>>, content: &str)
    requires
        strictly_sorted(views(old(names)@)),
    ensures
        strictly_sorted(views(final(names)@)),
        forall|n: Seq<char>| views(final(names)@).contains(n) <==> (views(old(names)@).contains(n) || dev_names(content@).contains(n)),
{
    let c = chars_of(content);
    let ls = crate::sysctl::lines_vec(&c);
    let ghost start = views(names@);
    let mut i: usize = 2;
    while i < ls.len()
        invariant
            c@ == content@,
            views(ls@) == crate::sysctl::lines(content@),
            strictly_sorted(views(names@)),
            2 <= i,
            forall|n: Seq<char>| #[trigger] views(names@).contains(n) <==> (start.contains(n) || seen(views(ls@), i as int, n)),
        decreases ls.len() - i,
    {
        let parts = split_vec(&ls[i], ':');
        proof {
            crate::text::lemma_split_nonempty(ls[i as int]@, ':');
        }
        let name = trim_vec(&parts[0]);
        assert(name@ == dev_line_name(views(ls@)[i as int]));
        let ghost before = views(names@);
        let ghost nv = name@;
        if name.len() > 0 {
            insert_sorted(names, name);
        }
        assert(forall|n: Seq<char>| #[trigger] views(names@).contains(n) <==> (before.contains(n) || (n == nv && nv.len() > 0)));
        assert forall|n: Seq<char>| #[trigger] views(names@).contains(n) <==> (start.contains(n) || seen(views(ls@), i + 1, n)) by {
            lemma_seen_step(views(ls@), i as int, n);
        }
        i += 1;
    }
    assert forall|n: Seq<char>| views(names@).contains(n) <==> (start.contains(n) || dev_names(content@).contains(n)) by {
        let ls2 = crate::sysctl::lines(content@);
        if dev_names(content@).contains(n) {
            let j = choose|j: int| 2 <= j < ls2.len() && dev_line_name(ls2[j]) == n && n.len() > 0;
            assert(seen(views(ls@), i as int, n));
        }
        if seen(views(ls@), i as int, n) {
            let j = choose|j: int| 2 <= j < i && j < ls.len() && #[trigger] dev_line_name(views(ls@)[j]) == n && n.len() > 0;
            assert(dev_names(content@).contains(n));
        }
    }
}

/// The interfaces of the host, in name order, from the text of
/// `/proc/net/dev` (`None` when it could not be read) and the
/// (interface, address) pairs the system reports. Every interface named in
/// either appears once, with its addresses in the order given.
pub fn list_interfaces(dev: Option<String>, addrs: Vec<(String, String)>) -> (r: Result<Vec<NetworkInterface>, String>)
    ensures
        r matches Ok(v) && {
            &&& sorted_listing(names_of(v@), all_names(dev, addrs@))
            &&& forall|i: int| 0 <= i < v.len() ==> {
                &&& string_views_of(v@[i].addresses@) == addresses_of(addrs@, v@[i].name@)
                &&& v@[i].is_zerotier == is_zerotier_name(v@[i].name@)
            }
        },
{
    let mut names: Vec<Vec<char>> = Vec::new();
    if let Some(c) = &dev {
        add_dev_names(&mut names, c.as_str());
    }
    let ghost after_dev = views(names@);
    let mut k: usize = 0;
    while k < addrs.len()
        invariant
            k <= addrs.len(),
            strictly_sorted(views(names@)),
            forall|n: Seq<char>| #[trigger] views(names@).contains(n) <==> (after_dev.contains(n) || named(addrs@, k as int, n)),
        decreases addrs.len() - k,
    {
        let nm = chars_of(addrs[k].0.as_str());
        let ghost before = views(names@);
        insert_sorted(&mut names, nm);
        assert(forall|n: Seq<char>| #[trigger] views(names@).contains(n) <==> (before.contains(n) || n == addrs@[k as int].0@));
        assert forall|n: Seq<char>| #[trigger] views(names@).contains(n) <==> (after_dev.contains(n) || named(addrs@, k + 1, n)) by {
            lemma_named_step(addrs@, k as int, n);
        }
        k += 1;
    }
    let mut out: Vec<NetworkInterface> = Vec::new();
    let mut i: usize = 0;
    while i < names.len()
        invariant
            i <= names.len(),
            names_of(out@) == views(names@).take(i as int),
            forall|m: int| 0 <= m < out.len() ==> {
                &&& string_views_of(out@[m].addresses@) == addresses_of(addrs@, out@[m].name@)
                &&& out@[m].is_zerotier == is_zerotier_name(out@[m].name@)
            },
        decreases names.len() - i,
    {
        let name = string_of(&names[i]);
        let found = addresses_for(&addrs, &name);
        let z = is_zerotier_iface(name.as_str());
        let ghost before = names_of(out@);
        out.push(NetworkInterface { name, addresses: found, is_zerotier: z });
        assert(names_of(out@) =~= before.push(views(names@)[i as int]));
        assert(views(names@).take(i + 1) =~= views(names@).take(i as int).push(views(names@)[i as int]));
        i += 1;
    }
    assert(views(names@).take(names.len() as int) =~= views(names@));
    assert forall|n: Seq<char>| names_of(out@).contains(n) <==> all_names(dev, addrs@).contains(n) by {
        if named(addrs@, addrs.len() as int, n) {
            let j = choose|j: int| 0 <= j < addrs.len() && j < addrs.len() && #[trigger] addrs@[j].0@ == n;
            assert(all_names(dev, addrs@).contains(n));
        }
        if all_names(dev, addrs@).contains(n) && !after_dev.contains(n) {
            let j = choose|j: int| 0 <= j < addrs.len() && addrs@[j].0@ == n;
            assert(named(addrs@, addrs.len() as int, n));
        }
    }
    Ok(out)
}

pub open spec fn string_views_of(v: Seq<String>) -> Seq<Seq<char>> {
    v.map_values(|s: String| s@)
}

/// The addresses listed for `name`, in order.
fn addresses_for(addrs: &Vec<(String, String)>, name: &String) -> (r: Vec<String>)
    ensures
        string_views_of(r@) == addresses_of(addrs@, name@),
{
    let mut r: Vec<String> = Vec::new();
    let mut i: usize = 0;
    while i < addrs.len()
        invariant
            i <= addrs.len(),
            string_views_of(r@) == addresses_of(addrs@.take(i as int), name@),
        decreases addrs.len() - i,
    {
        assert(addrs@.take(i + 1).drop_last() =~= addrs@.take(i as int));
        let ghost before = string_views_of(r@);
        if addrs[i].0 == *name {
            r.push(addrs[i].1.clone());
            assert(string_views_of(r@) =~= before.push(addrs@[i as int].1@));
        }
        i += 1;
    }
    assert(addrs@.take(addrs.len() as int) =~= addrs@);
    r
}

} // verus!
