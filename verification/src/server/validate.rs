//! Input validation for API path parameters and body fields.
use crate::server::error::ApiError;
use crate::text::{
    all_digits, all_hex, chars_of, decimal, decimal_vec, digits_value, find, find_char, is_digit,
    is_hex_digit, lemma_split_nonempty, parse_uint, parse_unsigned, slice, split, split_vec,
    string_of, text3, views,
};
use vstd::prelude::*;

verus! {

// ── Specifications ────────────────────────────────────────────────────────────

/// A ZeroTier network ID: exactly 16 hexadecimal characters.
pub open spec fn is_network_id(s: Seq<char>) -> bool {
    s.len() == 16 && all_hex(s)
}

/// A ZeroTier node ID: exactly 10 hexadecimal characters.
pub open spec fn is_node_id(s: Seq<char>) -> bool {
    s.len() == 10 && all_hex(s)
}

/// A moon world ID: 1 to 16 hexadecimal characters.
pub open spec fn is_world_id(s: Seq<char>) -> bool {
    1 <= s.len() <= 16 && all_hex(s)
}

/// One decimal component of a dotted-quad IPv4 address: one to three digits,
/// no leading zero unless it is `0` itself, at most 255.
pub open spec fn is_ipv4_octet(p: Seq<char>) -> bool {
    &&& 1 <= p.len() <= 3
    &&& all_digits(p)
    &&& (p.len() == 1 || p[0] != '0')
    &&& digits_value(p) <= 255
}

/// Dotted-quad IPv4 text, as `Ipv4Addr` accepts it.
pub open spec fn is_ipv4(s: Seq<char>) -> bool {
    let parts = split(s, '.');
    parts.len() == 4 && forall|i: int| 0 <= i < 4 ==> is_ipv4_octet(#[trigger] parts[i])
}

/// One group of an IPv6 address: one to four hexadecimal digits.
pub open spec fn is_hex_group(p: Seq<char>) -> bool {
    1 <= p.len() <= 4 && all_hex(p)
}

/// The number of 16-bit slots that `s`, a `:`-separated list of groups, fills;
/// when `v4_tail` holds, the last item may be an IPv4 address, which fills two.
/// `None` when `s` is not such a list. The empty text fills no slot.
pub open spec fn group_slots(s: Seq<char>, v4_tail: bool) -> Option<nat> {
    if s.len() == 0 {
        Some(0)
    } else {
        let parts = split(s, ':');
        let n = parts.len();
        if n >= 1 && (forall|i: int| 0 <= i < n - 1 ==> is_hex_group(#[trigger] parts[i])) {
            if is_hex_group(parts[n - 1]) {
                Some(n)
            } else if v4_tail && is_ipv4(parts[n - 1]) {
                Some(n + 1)
            } else {
                None
            }
        } else {
            None
        }
    }
}

/// Position of the first `cc` (two `c` in a row) in `s`.
pub open spec fn find_double(s: Seq<char>, c: char) -> Option<int>
    decreases s.len(),
{
    if s.len() < 2 {
        None
    } else if s[0] == c && s[1] == c {
        Some(0)
    } else {
        match find_double(s.drop_first(), c) {
            Some(i) => Some(i + 1),
            None => None,
        }
    }
}

/// IPv6 text, as `Ipv6Addr` accepts it: eight groups, or fewer groups around
/// one `::` that stands for at least one zero group; an IPv4 address may take
/// the place of the last two groups.
pub open spec fn is_ipv6(s: Seq<char>) -> bool {
    match find_double(s, ':') {
        None => group_slots(s, true) == Some(8nat),
        Some(k) => match (group_slots(s.take(k), false), group_slots(s.skip(k + 2), true)) {
            (Some(h), Some(t)) => h + t <= 7,
            _ => false,
        },
    }
}

/// Text that `IpAddr` accepts.
pub open spec fn is_ip(s: Seq<char>) -> bool {
    is_ipv4(s) || is_ipv6(s)
}

/// What `node_id` answers for `id`.
pub open spec fn node_id_result(id: Seq<char>) -> Result<(), Seq<char>> {
    if is_node_id(id) {
        Ok(())
    } else {
        Err("invalid node_id '"@ + id + "': must be exactly 10 hex characters"@)
    }
}

/// What `world_id` answers for `id`.
pub open spec fn world_id_result(id: Seq<char>) -> Result<(), Seq<char>> {
    if is_world_id(id) {
        Ok(())
    } else {
        Err("invalid world_id '"@ + id + "': must be 1–16 hex characters"@)
    }
}

/// The first failing of two checks, made in order.
pub open spec fn both(a: Result<(), Seq<char>>, b: Result<(), Seq<char>>) -> Result<(), Seq<char>> {
    match a {
        Ok(()) => b,
        Err(m) => Err(m),
    }
}

/// What `network_id` answers for `id`.
pub open spec fn network_id_result(id: Seq<char>) -> Result<(), Seq<char>> {
    if is_network_id(id) {
        Ok(())
    } else {
        Err("invalid network_id '"@ + id + "': must be exactly 16 hex characters"@)
    }
}

/// What `cidr` answers for `s`: `Ok` or the message of its `InvalidInput` error.
pub open spec fn cidr_result(s: Seq<char>) -> Result<(), Seq<char>> {
    match find(s, '/') {
        None => Err("invalid CIDR '"@ + s + "': expected addr/prefix"@),
        Some(k) => {
            let addr = s.take(k);
            let rest = s.skip(k + 1);
            if !is_ip(addr) {
                Err("invalid IP address: '"@ + addr + "'"@)
            } else {
                match parse_unsigned(rest, 255) {
                    None => Err("invalid CIDR prefix in '"@ + s + "'"@),
                    Some(p) => {
                        let max: nat = if find(addr, ':') is Some {
                            128
                        } else {
                            32
                        };
                        if p > max {
                            Err("CIDR prefix "@ + decimal(p as nat) + " out of range (max "@
                                + decimal(max) + ")"@)
                        } else {
                            Ok(())
                        }
                    },
                }
            }
        },
    }
}

/// `r` is `Ok` exactly when `expected` is, and otherwise an `InvalidInput`
/// error carrying the expected message.
pub open spec fn answers(r: Result<(), ApiError>, expected: Result<(), Seq<char>>) -> bool {
    match expected {
        Ok(()) => r is Ok,
        Err(m) => r matches Err(ApiError::InvalidInput(msg)) && msg@ == m,
    }
}

/// `r` is an `InvalidInput` error with the message `m`.
pub open spec fn invalid<T>(r: Result<T, ApiError>, m: Seq<char>) -> bool {
    r matches Err(ApiError::InvalidInput(msg)) && msg@ == m
}

// ── Lemmas ────────────────────────────────────────────────────────────────────

proof fn lemma_find_double_is(s: Seq<char>, c: char, r: Option<int>)
    requires
        match r {
            Some(i) => 0 <= i && i + 1 < s.len() && s[i] == c && s[i + 1] == c && forall|j: int|
                #![trigger s[j]] 0 <= j < i ==> !(s[j] == c && s[j + 1] == c),
            None => forall|j: int| #![trigger s[j]] 0 <= j && j + 1 < s.len() ==> !(s[j] == c && s[j + 1] == c),
        },
    ensures
        find_double(s, c) == r,
    decreases s.len(),
{
    if s.len() >= 2 && !(s[0] == c && s[1] == c) {
        let t = s.drop_first();
        let rt = match r {
            Some(i) => Some(i - 1),
            None => None,
        };
        match r {
            Some(i) => {
                assert(i != 0);
                assert forall|j: int| #![trigger t[j]] 0 <= j < i - 1 implies !(t[j] == c && t[j + 1] == c) by {
                    assert(t[j] == s[j + 1] && t[j + 1] == s[j + 2]);
                }
            },
            None => {
                assert forall|j: int| #![trigger t[j]] 0 <= j && j + 1 < t.len() implies !(t[j] == c && t[j + 1]
                    == c) by {
                    assert(t[j] == s[j + 1] && t[j + 1] == s[j + 2]);
                }
            },
        }
        lemma_find_double_is(t, c, rt);
    }
}

// ── Executable checks ─────────────────────────────────────────────────────────

fn all_hex_exec(v: &Vec<char>) -> (r: bool)
    ensures
        r == all_hex(v@),
{
    let mut i: usize = 0;
    while i < v.len()
        invariant
            i <= v.len(),
            forall|j: int| 0 <= j < i ==> is_hex_digit(#[trigger] v@[j]),
        decreases v.len() - i,
    {
        let c = v[i];
        if !(('0' <= c && c <= '9') || ('a' <= c && c <= 'f') || ('A' <= c && c <= 'F')) {
            assert(!is_hex_digit(v@[i as int]));
            return false;
        }
        i += 1;
    }
    true
}

fn all_digits_exec(v: &Vec<char>) -> (r: bool)
    ensures
        r == all_digits(v@),
{
    let mut i: usize = 0;
    while i < v.len()
        invariant
            i <= v.len(),
            forall|j: int| 0 <= j < i ==> is_digit(#[trigger] v@[j]),
        decreases v.len() - i,
    {
        let c = v[i];
        if !('0' <= c && c <= '9') {
            assert(!is_digit(v@[i as int]));
            return false;
        }
        i += 1;
    }
    true
}

fn is_ipv4_octet_exec(p: &Vec<char>) -> (r: bool)
    ensures
        r == is_ipv4_octet(p@),
{
    if p.len() < 1 || p.len() > 3 || !all_digits_exec(p) {
        return false;
    }
    if p.len() > 1 && p[0] == '0' {
        return false;
    }
    assert(!(p@.len() > 1 && p@[0] == '+'));
    assert(crate::text::unsigned_digits(p@) == p@);
    parse_uint(p, 255).is_some()
}

fn is_ipv4_exec(s: &Vec<char>) -> (r: bool)
    ensures
        r == is_ipv4(s@),
{
    let parts = split_vec(s, '.');
    if parts.len() != 4 {
        return false;
    }
    let mut i: usize = 0;
    while i < 4
        invariant
            i <= 4,
            parts.len() == 4,
            views(parts@) == split(s@, '.'),
            forall|j: int| 0 <= j < i ==> is_ipv4_octet(#[trigger] split(s@, '.')[j]),
        decreases 4 - i,
    {
        assert(views(parts@)[i as int] == parts@[i as int]@);
        if !is_ipv4_octet_exec(&parts[i]) {
            return false;
        }
        i += 1;
    }
    true
}

fn is_hex_group_exec(p: &Vec<char>) -> (r: bool)
    ensures
        r == is_hex_group(p@),
{
    p.len() >= 1 && p.len() <= 4 && all_hex_exec(p)
}

/// The slots `s` fills, as a count of items and whether the last item is an
/// IPv4 address (which fills one slot more).
fn group_slots_exec(s: &Vec<char>, v4_tail: bool) -> (r: Option<(usize, bool)>)
    ensures
        match r {
            Some((n, v4)) => group_slots(s@, v4_tail) == Some((n + if v4 { 1nat } else { 0nat }) as nat),
            None => group_slots(s@, v4_tail) is None,
        },
{
    if s.len() == 0 {
        return Some((0, false));
    }
    let parts = split_vec(s, ':');
    proof {
        lemma_split_nonempty(s@, ':');
    }
    let n = parts.len();
    let ghost sp = split(s@, ':');
    let mut i: usize = 0;
    while i + 1 < n
        invariant
            s.len() > 0,
            n == parts.len() == sp.len(),
            sp == split(s@, ':'),
            n >= 1,
            i < n,
            views(parts@) == sp,
            forall|j: int| 0 <= j < i ==> is_hex_group(#[trigger] sp[j]),
        decreases n - i,
    {
        assert(views(parts@)[i as int] == parts@[i as int]@);
        if !is_hex_group_exec(&parts[i]) {
            assert(!is_hex_group(sp[i as int]));
            return None;
        }
        i += 1;
    }
    assert(views(parts@)[n - 1] == parts@[n - 1]@);
    if is_hex_group_exec(&parts[n - 1]) {
        Some((n, false))
    } else if v4_tail && is_ipv4_exec(&parts[n - 1]) {
        Some((n, true))
    } else {
        None
    }
}

fn find_double_colon(s: &Vec<char>) -> (r: Option<usize>)
    ensures
        match r {
            Some(i) => find_double(s@, ':') == Some(i as int) && i + 1 < s.len(),
            None => find_double(s@, ':') is None,
        },
{
    if s.len() < 2 {
        proof {
            lemma_find_double_is(s@, ':', None);
        }
        return None;
    }
    let mut i: usize = 0;
    while i < s.len() - 1
        invariant
            s.len() >= 2,
            i <= s.len(),
            forall|j: int| #![trigger s@[j]] 0 <= j < i && j + 1 < s.len() ==> !(s@[j] == ':' && s@[j + 1] == ':'),
        decreases s.len() - i,
    {
        if s[i] == ':' && s[i + 1] == ':' {
            proof {
                lemma_find_double_is(s@, ':', Some(i as int));
            }
            return Some(i);
        }
        i += 1;
    }
    proof {
        lemma_find_double_is(s@, ':', None);
    }
    None
}

fn is_ipv6_exec(s: &Vec<char>) -> (r: bool)
    ensures
        r == is_ipv6(s@),
{
    match find_double_colon(s) {
        None => match group_slots_exec(s, true) {
            Some((n, v4)) => (n == 8 && !v4) || (n == 7 && v4),
            None => false,
        },
        Some(k) => {
            let head = slice(s, 0, k);
            let tail = slice(s, k + 2, s.len());
            assert(head@ =~= s@.take(k as int));
            assert(tail@ =~= s@.skip(k + 2));
            match (group_slots_exec(&head, false), group_slots_exec(&tail, true)) {
                (Some((h, hv4)), Some((t, tv4))) => {
                    if h > 8 || t > 8 {
                        false
                    } else {
                        h + t + (if hv4 { 1 } else { 0 }) + (if tv4 { 1 } else { 0 }) <= 7
                    }
                },
                _ => false,
            }
        },
    }
}

/// Whether `s` is an IPv4 or IPv6 address.
pub fn is_ip_exec(s: &Vec<char>) -> (r: bool)
    ensures
        r == is_ip(s@),
{
    is_ipv4_exec(s) || is_ipv6_exec(s)
}

// ── Public validators ─────────────────────────────────────────────────────────

/// ZeroTier network ID: exactly 16 hex characters, e.g. "8056c2e21c000001".
pub fn network_id(id: &str) -> (r: Result<(), ApiError>)
    ensures
        answers(r, network_id_result(id@)),
{
    let v = chars_of(id);
    if v.len() == 16 && all_hex_exec(&v) {
        Ok(())
    } else {
        Err(ApiError::InvalidInput(text3("invalid network_id '", &v, "': must be exactly 16 hex characters")))
    }
}

/// ZeroTier node/member ID: exactly 10 hex characters, e.g. "a29a9a9a9a".
pub fn node_id(id: &str) -> (r: Result<(), ApiError>)
    ensures
        answers(r, node_id_result(id@)),
{
    let v = chars_of(id);
    if v.len() == 10 && all_hex_exec(&v) {
        Ok(())
    } else {
        Err(ApiError::InvalidInput(text3("invalid node_id '", &v, "': must be exactly 10 hex characters")))
    }
}

/// ZeroTier moon world_id: 1–16 hex characters.
pub fn world_id(id: &str) -> (r: Result<(), ApiError>)
    ensures
        answers(r, world_id_result(id@)),
{
    let v = chars_of(id);
    if v.len() >= 1 && v.len() <= 16 && all_hex_exec(&v) {
        Ok(())
    } else {
        Err(ApiError::InvalidInput(text3("invalid world_id '", &v, "': must be 1–16 hex characters")))
    }
}

/// IPv4/IPv6 address.
pub fn ip_addr(s: &str) -> (r: Result<(), ApiError>)
    ensures
        answers(
            r,
            if is_ip(s@) {
                Ok(())
            } else {
                Err("invalid IP address: '"@ + s@ + "'"@)
            },
        ),
{
    let v = chars_of(s);
    if is_ip_exec(&v) {
        Ok(())
    } else {
        Err(ApiError::InvalidInput(text3("invalid IP address: '", &v, "'")))
    }
}

/// CIDR notation, e.g. "192.168.1.0/24".
pub fn cidr(s: &str) -> (r: Result<(), ApiError>)
    ensures
        answers(r, cidr_result(s@)),
{
    let v = chars_of(s);
    let slash = match find_char(&v, '/') {
        None => {
            return Err(ApiError::InvalidInput(text3("invalid CIDR '", &v, "': expected addr/prefix")));
        },
        Some(k) => k,
    };
    proof {
        crate::text::lemma_find_bounds(v@, '/');
    }
    let addr = slice(&v, 0, slash);
    let rest = slice(&v, slash + 1, v.len());
    assert(addr@ =~= v@.take(slash as int));
    assert(rest@ =~= v@.skip(slash + 1));
    if !is_ip_exec(&addr) {
        return Err(ApiError::InvalidInput(text3("invalid IP address: '", &addr, "'")));
    }
    let prefix = match parse_uint(&rest, 255) {
        None => {
            return Err(ApiError::InvalidInput(text3("invalid CIDR prefix in '", &v, "'")));
        },
        Some(p) => p,
    };
    let max: u64 = if find_char(&addr, ':').is_some() {
        128
    } else {
        32
    };
    if prefix > max {
        let a = text3("CIDR prefix ", &decimal_vec(prefix), " out of range (max ");
        let b = crate::text::concat(&chars_of(a.as_str()), &decimal_vec(max));
        let m = crate::text::concat(&b, &crate::text::lit(")"));
        return Err(ApiError::InvalidInput(string_of(&m)));
    }
    Ok(())
}

} // verus!
