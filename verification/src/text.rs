//! Character-sequence helpers shared by the parsers and validators.
//!
//! Text is handled as `Vec<char>` inside the library; the mathematical model
//! of every piece of text is its `Seq<char>` view.
use vstd::prelude::*;

verus! {

// ── Specifications ────────────────────────────────────────────────────────────

/// Unicode `White_Space`, which is what `char::is_whitespace` tests.
pub open spec fn is_ws(c: char) -> bool {
    let u = c as u32;
    ||| u == 0x20
    ||| (0x09 <= u && u <= 0x0d)
    ||| u == 0x85
    ||| u == 0xa0
    ||| u == 0x1680
    ||| (0x2000 <= u && u <= 0x200a)
    ||| u == 0x2028
    ||| u == 0x2029
    ||| u == 0x202f
    ||| u == 0x205f
    ||| u == 0x3000
}

/// `s` without its leading whitespace.
pub open spec fn trim_start(s: Seq<char>) -> Seq<char>
    decreases s.len(),
{
    if s.len() > 0 && is_ws(s[0]) {
        trim_start(s.drop_first())
    } else {
        s
    }
}

/// `s` without its trailing whitespace.
pub open spec fn trim_end(s: Seq<char>) -> Seq<char>
    decreases s.len(),
{
    if s.len() > 0 && is_ws(s.last()) {
        trim_end(s.drop_last())
    } else {
        s
    }
}

/// `s` without leading and trailing whitespace (`str::trim`).
pub open spec fn trim(s: Seq<char>) -> Seq<char> {
    trim_end(trim_start(s))
}

/// `s` without any leading or trailing occurrence of `c` (`str::trim_matches(c)`).
pub open spec fn strip_char(s: Seq<char>, c: char) -> Seq<char> {
    strip_char_end(strip_char_start(s, c), c)
}

pub open spec fn strip_char_start(s: Seq<char>, c: char) -> Seq<char>
    decreases s.len(),
{
    if s.len() > 0 && s[0] == c {
        strip_char_start(s.drop_first(), c)
    } else {
        s
    }
}

pub open spec fn strip_char_end(s: Seq<char>, c: char) -> Seq<char>
    decreases s.len(),
{
    if s.len() > 0 && s.last() == c {
        strip_char_end(s.drop_last(), c)
    } else {
        s
    }
}

/// Position of the first occurrence of `c` in `s`.
pub open spec fn find(s: Seq<char>, c: char) -> Option<int>
    decreases s.len(),
{
    if s.len() == 0 {
        None
    } else if s[0] == c {
        Some(0)
    } else {
        match find(s.drop_first(), c) {
            Some(i) => Some(i + 1),
            None => None,
        }
    }
}

/// The pieces of `s` between occurrences of `sep` (`str::split(sep)`).
pub open spec fn split(s: Seq<char>, sep: char) -> Seq<Seq<char>>
    decreases s.len(),
{
    if s.len() == 0 {
        seq![Seq::<char>::empty()]
    } else {
        let init = split(s.drop_last(), sep);
        if s.last() == sep {
            init.push(Seq::<char>::empty())
        } else {
            init.update(init.len() - 1, init.last().push(s.last()))
        }
    }
}

pub open spec fn is_digit(c: char) -> bool {
    '0' <= c && c <= '9'
}

pub open spec fn is_hex_digit(c: char) -> bool {
    ||| ('0' <= c && c <= '9')
    ||| ('a' <= c && c <= 'f')
    ||| ('A' <= c && c <= 'F')
}

pub open spec fn all_digits(s: Seq<char>) -> bool {
    forall|i: int| 0 <= i < s.len() ==> is_digit(#[trigger] s[i])
}

pub open spec fn all_hex(s: Seq<char>) -> bool {
    forall|i: int| 0 <= i < s.len() ==> is_hex_digit(#[trigger] s[i])
}

pub open spec fn digit_value(c: char) -> int {
    (c as int) - ('0' as int)
}

/// The number that the decimal digits `s` denote.
pub open spec fn digits_value(s: Seq<char>) -> int
    decreases s.len(),
{
    if s.len() == 0 {
        0
    } else {
        digits_value(s.drop_last()) * 10 + digit_value(s.last())
    }
}

/// The digits of an unsigned integer literal as `str::parse` reads them:
/// one optional leading `+`, then at least one ASCII digit.
pub open spec fn unsigned_digits(s: Seq<char>) -> Seq<char> {
    if s.len() > 1 && s[0] == '+' {
        s.drop_first()
    } else {
        s
    }
}

/// What `str::parse::<uN>()` returns for `s`, where `max` is `uN::MAX`.
pub open spec fn parse_unsigned(s: Seq<char>, max: int) -> Option<int> {
    let d = unsigned_digits(s);
    if d.len() > 0 && all_digits(d) && digits_value(d) <= max {
        Some(digits_value(d))
    } else {
        None
    }
}

/// What `str::parse::<i64>()` returns for `s`.
pub open spec fn parse_i64(s: Seq<char>) -> Option<int> {
    if s.len() > 1 && s[0] == '-' {
        let d = s.drop_first();
        if all_digits(d) && digits_value(d) <= 0x8000_0000_0000_0000 {
            Some(-digits_value(d))
        } else {
            None
        }
    } else {
        parse_unsigned(s, 0x7fff_ffff_ffff_ffff)
    }
}

/// Length of the run of non-whitespace characters at the start of `s`.
pub open spec fn word_len(s: Seq<char>) -> nat
    decreases s.len(),
{
    if s.len() > 0 && !is_ws(s[0]) {
        1 + word_len(s.drop_first())
    } else {
        0
    }
}

/// `p` is a prefix of `s`.
pub open spec fn starts_with(s: Seq<char>, p: Seq<char>) -> bool {
    p.len() <= s.len() && s.take(p.len() as int) == p
}

/// `sub` occurs in `s` at position `i`.
pub open spec fn occurs_at(s: Seq<char>, sub: Seq<char>, i: int) -> bool {
    0 <= i && i + sub.len() <= s.len() && s.subrange(i, i + sub.len()) == sub
}

/// `sub` occurs in `s` (`str::contains`).
pub open spec fn contains(s: Seq<char>, sub: Seq<char>) -> bool {
    exists|i: int| occurs_at(s, sub, i)
}

/// Decimal digits of `n`, most significant first, without leading zeros.
pub open spec fn decimal(n: nat) -> Seq<char>
    decreases n,
{
    if n < 10 {
        seq![digit_char(n)]
    } else {
        decimal(n / 10).push(digit_char(n % 10))
    }
}

pub open spec fn digit_char(d: nat) -> char {
    if d == 0 { '0' }
    else if d == 1 { '1' }
    else if d == 2 { '2' }
    else if d == 3 { '3' }
    else if d == 4 { '4' }
    else if d == 5 { '5' }
    else if d == 6 { '6' }
    else if d == 7 { '7' }
    else if d == 8 { '8' }
    else { '9' }
}

// ── Lemmas ────────────────────────────────────────────────────────────────────

pub proof fn lemma_split_nonempty(s: Seq<char>, sep: char)
    ensures
        split(s, sep).len() >= 1,
    decreases s.len(),
{
    if s.len() > 0 {
        lemma_split_nonempty(s.drop_last(), sep);
    }
}

pub proof fn lemma_find_bounds(s: Seq<char>, c: char)
    ensures
        match find(s, c) {
            Some(i) => 0 <= i < s.len() && s[i] == c && forall|j: int| 0 <= j < i ==> s[j] != c,
            None => forall|j: int| 0 <= j < s.len() ==> s[j] != c,
        },
    decreases s.len(),
{
    if s.len() > 0 && s[0] != c {
        lemma_find_bounds(s.drop_first(), c);
        match find(s.drop_first(), c) {
            Some(i) => {
                assert forall|j: int| 0 <= j < i + 1 implies s[j] != c by {
                    if j > 0 {
                        assert(s[j] == s.drop_first()[j - 1]);
                    }
                }
            },
            None => {
                assert forall|j: int| 0 <= j < s.len() implies s[j] != c by {
                    if j > 0 {
                        assert(s[j] == s.drop_first()[j - 1]);
                    }
                }
            },
        }
    }
}

/// `find` agrees with a first-occurrence description.
pub proof fn lemma_find_is(s: Seq<char>, c: char, r: Option<int>)
    requires
        match r {
            Some(i) => 0 <= i < s.len() && s[i] == c && forall|j: int| 0 <= j < i ==> s[j] != c,
            None => forall|j: int| 0 <= j < s.len() ==> s[j] != c,
        },
    ensures
        find(s, c) == r,
{
    lemma_find_bounds(s, c);
}

pub proof fn lemma_digits_value_nonneg(s: Seq<char>)
    requires
        all_digits(s),
    ensures
        digits_value(s) >= 0,
    decreases s.len(),
{
    if s.len() > 0 {
        lemma_digits_value_nonneg(s.drop_last());
    }
}

// ── Executable helpers ────────────────────────────────────────────────────────

/// The characters of `s`, in order.
pub(crate) fn chars_of(s: &str) -> (v: Vec<char>)
    ensures
        v@ == s@,
{
    broadcast use vstd::string::axiom_spec_iter;
    let mut v: Vec<char> = Vec::new();
    for c in it: s.chars()
        invariant
            it.seq() == s@,
            v@ == s@.take(it.index() as int),
            it.index() <= s@.len(),
    {
        assert(s@.take(it.index() + 1) =~= s@.take(it.index() as int).push(c));
        v.push(c);
    }
    proof {
        assert(s@.take(s@.len() as int) =~= s@);
    }
    v
}

/// The string made of the characters `v`, in order.
#[verifier::external_body]
pub(crate) fn string_of(v: &Vec<char>) -> (s: String)
    ensures
        s@ == v@,
{
    v.iter().collect()
}

/// A copy of the characters of `v` in `lo..hi`.
pub fn slice(v: &Vec<char>, lo: usize, hi: usize) -> (r: Vec<char>)
    requires
        lo <= hi <= v.len(),
    ensures
        r@ == v@.subrange(lo as int, hi as int),
{
    let mut r: Vec<char> = Vec::new();
    let mut i = lo;
    while i < hi
        invariant
            lo <= i <= hi <= v.len(),
            r@ == v@.subrange(lo as int, i as int),
        decreases hi - i,
    {
        r.push(v[i]);
        i += 1;
        assert(r@ =~= v@.subrange(lo as int, i as int));
    }
    r
}

/// `a` followed by `b`.
pub fn concat(a: &Vec<char>, b: &Vec<char>) -> (r: Vec<char>)
    ensures
        r@ == a@ + b@,
{
    let mut r = a.clone();
    let mut i: usize = 0;
    while i < b.len()
        invariant
            i <= b.len(),
            r@ == a@ + b@.take(i as int),
        decreases b.len() - i,
    {
        r.push(b[i]);
        i += 1;
        assert(r@ =~= a@ + b@.take(i as int));
    }
    assert(b@.take(b.len() as int) =~= b@);
    r
}

/// `s` with leading and trailing whitespace removed.
pub fn trim_vec(s: &Vec<char>) -> (r: Vec<char>)
    ensures
        r@ == trim(s@),
{
    let n = s.len();
    let mut lo: usize = 0;
    assert(s@.skip(0) =~= s@);
    while lo < n && is_whitespace(s[lo])
        invariant
            lo <= n == s.len(),
            trim_start(s@) == trim_start(s@.skip(lo as int)),
        decreases n - lo,
    {
        assert(s@.skip(lo as int).drop_first() =~= s@.skip(lo + 1));
        lo += 1;
    }
    let mut hi: usize = n;
    while hi > lo && is_whitespace(s[hi - 1])
        invariant
            lo <= hi <= n == s.len(),
            trim_start(s@.skip(lo as int)) == s@.skip(lo as int),
            trim(s@) == trim_end(s@.subrange(lo as int, hi as int)),
        decreases hi,
    {
        assert(s@.subrange(lo as int, hi as int).drop_last() =~= s@.subrange(
            lo as int,
            hi - 1,
        ));
        hi -= 1;
    }
    if lo < n && hi == lo {
        assert(s@.subrange(lo as int, hi as int) =~= Seq::<char>::empty());
    }
    if lo == n {
        assert(s@.skip(lo as int) =~= Seq::<char>::empty());
        assert(s@.subrange(lo as int, hi as int) =~= Seq::<char>::empty());
    }
    slice(s, lo, hi)
}

/// `char::is_whitespace`.
pub fn is_whitespace(c: char) -> (r: bool)
    ensures
        r == is_ws(c),
{
    let u = c as u32;
    u == 0x20 || (0x09 <= u && u <= 0x0d) || u == 0x85 || u == 0xa0 || u == 0x1680 || (0x2000
        <= u && u <= 0x200a) || u == 0x2028 || u == 0x2029 || u == 0x202f || u == 0x205f || u
        == 0x3000
}

/// Position of the first `c` in `s`.
pub fn find_char(s: &Vec<char>, c: char) -> (r: Option<usize>)
    ensures
        match r {
            Some(i) => find(s@, c) == Some(i as int),
            None => find(s@, c) is None,
        },
{
    let mut i: usize = 0;
    while i < s.len()
        invariant
            i <= s.len(),
            forall|j: int| 0 <= j < i ==> s@[j] != c,
        decreases s.len() - i,
    {
        if s[i] == c {
            proof {
                lemma_find_is(s@, c, Some(i as int));
            }
            return Some(i);
        }
        i += 1;
    }
    proof {
        lemma_find_is(s@, c, None);
    }
    None
}

/// The views of a sequence of character vectors.
pub open spec fn views(v: Seq<Vec<char>>) -> Seq<Seq<char>> {
    v.map_values(|x: Vec<char>| x@)
}

/// The pieces of `s` between occurrences of `sep`.
pub fn split_vec(s: &Vec<char>, sep: char) -> (r: Vec<Vec<char>>)
    ensures
        views(r@) == split(s@, sep),
{
    let mut done: Vec<Vec<char>> = Vec::new();
    let mut cur: Vec<char> = Vec::new();
    let mut i: usize = 0;
    while i < s.len()
        invariant
            i <= s.len(),
            views(done@).push(cur@) == split(s@.take(i as int), sep),
        decreases s.len() - i,
    {
        let ghost before = s@.take(i as int);
        assert(s@.take(i + 1).drop_last() =~= before);
        if s[i] == sep {
            let ghost old_done = views(done@);
            let ghost old_cur = cur@;
            done.push(cur);
            assert(views(done@) =~= old_done.push(old_cur));
            cur = Vec::new();
            assert(views(done@).push(cur@) =~= split(s@.take(i + 1), sep));
        } else {
            let ghost old_done = views(done@);
            let ghost old_cur = cur@;
            cur.push(s[i]);
            assert(views(done@).push(cur@) =~= old_done.push(old_cur).update(
                old_done.len() as int,
                old_cur.push(s@[i as int]),
            ));
        }
        i += 1;
    }
    assert(s@.take(s.len() as int) =~= s@);
    let ghost old_done = views(done@);
    done.push(cur);
    assert(views(done@) =~= old_done.push(cur@));
    done
}

/// `str::parse` of an unsigned integer whose type has maximum `max`.
pub fn parse_uint(s: &Vec<char>, max: u64) -> (r: Option<u64>)
    requires
        max >= 9,
    ensures
        match r {
            Some(v) => parse_unsigned(s@, max as int) == Some(v as int),
            None => parse_unsigned(s@, max as int) is None,
        },
{
    let start: usize = if s.len() > 1 && s[0] == '+' {
        1
    } else {
        0
    };
    let ghost d = unsigned_digits(s@);
    assert(d =~= s@.skip(start as int));
    if start == s.len() {
        return None;
    }
    let mut acc: u64 = 0;
    let mut i = start;
    while i < s.len()
        invariant
            start <= i <= s.len(),
            d == s@.skip(start as int),
            d == unsigned_digits(s@),
            all_digits(s@.subrange(start as int, i as int)),
            acc as int == digits_value(s@.subrange(start as int, i as int)),
            acc <= max,
            max >= 9,
        decreases s.len() - i,
    {
        let c = s[i];
        if !('0' <= c && c <= '9') {
            assert(d[i - start] == c);
            assert(!is_digit(d[i - start]));
            assert(!all_digits(d));
            return None;
        }
        let dv = (c as u32 - '0' as u32) as u64;
        assert(dv <= 9);
        assert(s@.subrange(start as int, i + 1).drop_last() =~= s@.subrange(
            start as int,
            i as int,
        ));
        if acc > (max - dv) / 10 {
            proof {
                let ds = s@.subrange(start as int, s.len() as int);
                assert(ds =~= d);
                assert(ds.take((i - start + 1) as int) =~= s@.subrange(start as int, i + 1));
                lemma_digits_prefix_grows(ds, (i - start + 1) as int);
                assert(acc * 10 + dv > max) by (nonlinear_arith)
                    requires
                        acc > (max - dv) / 10,
                        dv <= max,
                ;
            }
            return None;
        }
        assert(acc * 10 + dv <= max) by (nonlinear_arith)
            requires
                acc <= (max - dv) / 10,
                dv <= max,
        ;
        acc = acc * 10 + dv;
        i += 1;
    }
    assert(s@.subrange(start as int, s.len() as int) =~= d);
    Some(acc)
}

/// Once the digits of a prefix exceed a bound, the whole digit string does too,
/// or the string is not all digits.
pub proof fn lemma_digits_prefix_grows(s: Seq<char>, k: int)
    requires
        0 <= k <= s.len(),
    ensures
        all_digits(s) ==> digits_value(s) >= digits_value(s.take(k)),
    decreases s.len() - k,
{
    if k < s.len() {
        lemma_digits_prefix_grows(s, k + 1);
        assert(s.take(k + 1).drop_last() =~= s.take(k));
        if all_digits(s) {
            assert(is_digit(s[k]));
            lemma_digits_value_nonneg(s.take(k));
        }
    } else {
        assert(s.take(k) =~= s);
    }
}

/// Decimal text of `n`.
pub fn decimal_vec(n: u64) -> (r: Vec<char>)
    ensures
        r@ == decimal(n as nat),
    decreases n,
{
    if n < 10 {
        let mut r = Vec::new();
        r.push(digit_char_exec(n));
        r
    } else {
        let mut r = decimal_vec(n / 10);
        r.push(digit_char_exec(n % 10));
        r
    }
}

fn digit_char_exec(d: u64) -> (c: char)
    requires
        d < 10,
    ensures
        c == digit_char(d as nat),
{
    if d == 0 { '0' }
    else if d == 1 { '1' }
    else if d == 2 { '2' }
    else if d == 3 { '3' }
    else if d == 4 { '4' }
    else if d == 5 { '5' }
    else if d == 6 { '6' }
    else if d == 7 { '7' }
    else if d == 8 { '8' }
    else { '9' }
}

/// Whether `p` is a prefix of `s`.
pub fn starts_with_vec(s: &Vec<char>, p: &Vec<char>) -> (r: bool)
    ensures
        r == starts_with(s@, p@),
{
    if p.len() > s.len() {
        return false;
    }
    let mut i: usize = 0;
    while i < p.len()
        invariant
            i <= p.len() <= s.len(),
            forall|j: int| 0 <= j < i ==> s@[j] == p@[j],
        decreases p.len() - i,
    {
        if s[i] != p[i] {
            assert(s@.take(p.len() as int)[i as int] != p@[i as int]);
            return false;
        }
        i += 1;
    }
    assert(s@.take(p.len() as int) =~= p@);
    true
}

/// Whether `sub` occurs in `s`.
pub fn contains_vec(s: &Vec<char>, sub: &Vec<char>) -> (r: bool)
    ensures
        r == contains(s@, sub@),
{
    if sub.len() > s.len() {
        return false;
    }
    let mut i: usize = 0;
    while i <= s.len() - sub.len()
        invariant
            sub.len() <= s.len(),
            i <= s.len(),
            forall|k: int| 0 <= k < i ==> !occurs_at(s@, sub@, k),
        decreases s.len() - i,
    {
        let mut j: usize = 0;
        let mut ok = true;
        while j < sub.len()
            invariant
                i + sub.len() <= s.len(),
                j <= sub.len(),
                ok == (forall|m: int| 0 <= m < j ==> s@[i + m] == sub@[m]),
            decreases sub.len() - j,
        {
            if s[i + j] != sub[j] {
                ok = false;
            }
            j += 1;
        }
        if ok {
            assert(s@.subrange(i as int, i + sub.len()) =~= sub@);
            assert(occurs_at(s@, sub@, i as int));
            return true;
        }
        assert(!occurs_at(s@, sub@, i as int)) by {
            let m = choose|m: int| 0 <= m < sub.len() && s@[i + m] != sub@[m];
            assert(s@.subrange(i as int, i + sub.len())[m] == s@[i + m]);
        }
        i += 1;
    }
    assert forall|k: int| !occurs_at(s@, sub@, k) by {
        if 0 <= k < i {
        }
    }
    false
}

/// The characters of a string literal or other `&str`.
pub fn lit(s: &str) -> (v: Vec<char>)
    ensures
        v@ == s@,
{
    chars_of(s)
}

/// `a`, then the characters `mid`, then `b`, as one string.
pub fn text3(a: &str, mid: &Vec<char>, b: &str) -> (r: String)
    ensures
        r@ == a@ + mid@ + b@,
{
    let x = concat(&lit(a), mid);
    let y = concat(&x, &lit(b));
    string_of(&y)
}

/// The characters of `a` followed by those of `b`, as one string.
pub fn text2(a: &str, b: &str) -> (r: String)
    ensures
        r@ == a@ + b@,
{
    let y = concat(&lit(a), &lit(b));
    string_of(&y)
}

/// A string with the characters of `s`.
pub fn owned(s: &str) -> (r: String)
    ensures
        r@ == s@,
{
    string_of(&lit(s))
}

/// Appends the characters of `s` to `buf`.
pub fn push_str(buf: &mut Vec<char>, s: &str)
    ensures
        final(buf)@ == old(buf)@ + s@,
{
    let cs = chars_of(s);
    let ghost start = buf@;
    let mut i: usize = 0;
    while i < cs.len()
        invariant
            i <= cs.len(),
            cs@ == s@,
            buf@ =~= start + cs@.take(i as int),
        decreases cs.len() - i,
    {
        buf.push(cs[i]);
        assert(cs@.take(i + 1) =~= cs@.take(i as int).push(cs@[i as int]));
        i += 1;
    }
    assert(cs@.take(cs.len() as int) =~= cs@);
}

/// Whether `a` and `b` are the same text.
pub fn str_eq(a: &str, b: &str) -> (r: bool)
    ensures
        r == (a@ == b@),
{
    a.to_owned() == b.to_owned()
}

/// A copy of an optional string.
pub fn copy_opt(o: &Option<String>) -> (r: Option<String>)
    ensures
        r == *o,
{
    match o {
        Some(s) => Some(s.clone()),
        None => None,
    }
}

/// The first whitespace-separated word of `s` and the text after it, as
/// `split_whitespace().next()` finds it; `None` when `s` is blank.
pub open spec fn next_word(s: Seq<char>) -> Option<(Seq<char>, Seq<char>)> {
    let t = trim_start(s);
    if t.len() == 0 {
        None
    } else {
        Some((t.take(word_len(t) as int), t.skip(word_len(t) as int)))
    }
}

/// The positions of the next word of `s` at or after `from`: its start and
/// end.
pub fn next_word_at(s: &Vec<char>, from: usize) -> (r: Option<(usize, usize)>)
    requires
        from <= s.len(),
    ensures
        match r {
            Some((a, b)) => from <= a < b <= s.len() && next_word(s@.skip(from as int)) == Some(
                (s@.subrange(a as int, b as int), s@.skip(b as int)),
            ),
            None => next_word(s@.skip(from as int)) is None,
        },
{
    let mut a = from;
    assert(s@.skip(from as int).skip(0) =~= s@.skip(from as int));
    while a < s.len() && is_whitespace(s[a])
        invariant
            from <= a <= s.len(),
            trim_start(s@.skip(from as int)) == trim_start(s@.skip(a as int)),
        decreases s.len() - a,
    {
        assert(s@.skip(a as int).drop_first() =~= s@.skip(a + 1));
        a += 1;
    }
    if a == s.len() {
        assert(s@.skip(a as int) =~= Seq::<char>::empty());
        return None;
    }
    assert(trim_start(s@.skip(a as int)) == s@.skip(a as int));
    let mut b = a;
    while b < s.len() && !is_whitespace(s[b])
        invariant
            a <= b <= s.len(),
            word_len(s@.skip(a as int)) == (b - a) + word_len(s@.skip(b as int)),
        decreases s.len() - b,
    {
        assert(s@.skip(b as int).drop_first() =~= s@.skip(b + 1));
        b += 1;
    }
    assert(word_len(s@.skip(b as int)) == 0);
    assert(b > a) by {
        assert(s@.skip(a as int)[0] == s@[a as int]);
    }
    let ghost t = s@.skip(a as int);
    assert(t.take(b - a) =~= s@.subrange(a as int, b as int));
    assert(t.skip(b - a) =~= s@.skip(b as int));
    Some((a, b))
}

/// Whether `s` is empty or all whitespace.
pub fn is_blank(s: &str) -> (r: bool)
    ensures
        r == (trim(s@).len() == 0),
{
    trim_vec(&chars_of(s)).len() == 0
}

/// The texts of `parts` joined with `sep` between them.
pub open spec fn join_with(parts: Seq<Seq<char>>, sep: Seq<char>) -> Seq<char>
    decreases parts.len(),
{
    if parts.len() == 0 {
        Seq::empty()
    } else if parts.len() == 1 {
        parts[0]
    } else {
        join_with(parts.drop_last(), sep) + sep + parts.last()
    }
}

/// The strings of `parts` joined with `sep` between them.
pub fn join_strings(parts: &Vec<String>, sep: &str) -> (r: String)
    ensures
        r@ == join_with(parts@.map_values(|s: String| s@), sep@),
{
    let ghost v = parts@.map_values(|s: String| s@);
    let mut b: Vec<char> = Vec::new();
    let mut i: usize = 0;
    while i < parts.len()
        invariant
            i <= parts.len(),
            v == parts@.map_values(|s: String| s@),
            b@ == join_with(v.take(i as int), sep@),
        decreases parts.len() - i,
    {
        assert(v.take(i + 1).drop_last() =~= v.take(i as int));
        if i > 0 {
            push_str(&mut b, sep);
        }
        let ghost before = b@;
        push_str(&mut b, parts[i].as_str());
        if i == 0 {
            assert(b@ =~= v.take(1)[0]);
        } else {
            assert(b@ =~= join_with(v.take(i as int), sep@) + sep@ + v.take(i + 1).last());
        }
        i += 1;
    }
    assert(v.take(parts.len() as int) =~= v);
    string_of(&b)
}


/// `base` joined with the relative path `rel` as `PathBuf::push` joins them
/// on Unix: a `/` in between unless `base` is empty or already ends in one.
pub open spec fn join_spec(base: Seq<char>, rel: Seq<char>) -> Seq<char> {
    if base.len() == 0 || base.last() == '/' {
        base + rel
    } else {
        base + seq!['/'] + rel
    }
}

/// `base` joined with the relative path `rel`.
pub fn join_path(base: &str, rel: &str) -> (r: String)
    ensures
        r@ == join_spec(base@, rel@),
{
    let mut b = chars_of(base);
    let n = b.len();
    if n != 0 && b[n - 1] != '/' {
        b.push('/');
    }
    push_str(&mut b, rel);
    string_of(&b)
}

/// An ASCII character in lower case: `A`–`Z` become `a`–`z`.
pub open spec fn ascii_lower_char(c: char) -> char {
    if 'A' <= c && c <= 'Z' {
        ((c as u32) + 32) as char
    } else {
        c
    }
}

fn lower_char(c: char) -> (r: char)
    ensures
        r == ascii_lower_char(c),
{
    if 'A' <= c && c <= 'Z' {
        ((c as u8) + 32) as char
    } else {
        c
    }
}

/// A text of ASCII characters only.
pub open spec fn is_ascii(s: Seq<char>) -> bool {
    forall|i: int| 0 <= i < s.len() ==> (#[trigger] s[i] as u32) < 128
}

/// A text with its ASCII capitals in lower case.
pub open spec fn ascii_lower(s: Seq<char>) -> Seq<char> {
    s.map_values(|c: char| ascii_lower_char(c))
}

/// A text with its ASCII capitals in lower case.
pub fn ascii_lower_vec(s: &Vec<char>) -> (r: Vec<char>)
    ensures
        r@ == ascii_lower(s@),
{
    let mut r: Vec<char> = Vec::new();
    let mut i: usize = 0;
    while i < s.len()
        invariant
            i <= s.len(),
            r@ == s@.take(i as int).map_values(|c: char| ascii_lower_char(c)),
        decreases s.len() - i,
    {
        r.push(lower_char(s[i]));
        assert(s@.take(i + 1).map_values(|c: char| ascii_lower_char(c)) =~= s@.take(i as int).map_values(
            |c: char| ascii_lower_char(c),
        ).push(ascii_lower_char(s@[i as int])));
        i += 1;
    }
    assert(s@.take(s.len() as int) =~= s@);
    r
}

/// Whether every character of `v` is a decimal digit.
pub fn all_digits_vec(v: &Vec<char>) -> (r: bool)
    ensures
        r == all_digits(v@),
{
    let mut i: usize = 0;
    while i < v.len()
        invariant
            i <= v.len(),
            forall|j: int| 0 <= j < i ==> is_digit(#[trigger] v@[j]),
        decreases v.len() - i,
    {
        if !('0' <= v[i] && v[i] <= '9') {
            return false;
        }
        i += 1;
    }
    true
}

// ── Number syntax ────────────────────────────────────────────────────────────

/// `s` without one leading sign.
pub open spec fn strip_sign(s: Seq<char>) -> Seq<char> {
    if s.len() > 0 && (s[0] == '+' || s[0] == '-') {
        s.skip(1)
    } else {
        s
    }
}

/// `Digit+ | Digit+ '.' Digit* | Digit* '.' Digit+`.
pub open spec fn mantissa_ok(m: Seq<char>) -> bool {
    match find(m, '.') {
        None => m.len() > 0 && all_digits(m),
        Some(d) => m.len() > 1 && all_digits(m.take(d)) && all_digits(m.skip(d + 1)),
    }
}

/// `Sign? Digit+`.
pub open spec fn exponent_ok(e: Seq<char>) -> bool {
    strip_sign(e).len() > 0 && all_digits(strip_sign(e))
}

/// A lower-cased `Number ::= Mantissa ('e' Exponent)?`.
pub open spec fn number_ok(l: Seq<char>) -> bool {
    match find(l, 'e') {
        None => mantissa_ok(l),
        Some(k) => mantissa_ok(l.take(k)) && exponent_ok(l.skip(k + 1)),
    }
}

/// A text that `f64::from_str` accepts, by the grammar its documentation
/// gives for the lower-cased text: `Sign? ('inf' | 'infinity' | 'nan' |
/// Number)`.
pub open spec fn float_ok(s: Seq<char>) -> bool {
    let l = ascii_lower(strip_sign(s));
    l == "inf"@ || l == "infinity"@ || l == "nan"@ || number_ok(l)
}

fn strip_sign_vec(s: &Vec<char>) -> (r: Vec<char>)
    ensures
        r@ == strip_sign(s@),
{
    if s.len() > 0 && (s[0] == '+' || s[0] == '-') {
        let r = slice(s, 1, s.len());
        assert(r@ =~= s@.skip(1));
        r
    } else {
        slice(s, 0, s.len())
    }
}

fn mantissa_ok_vec(m: &Vec<char>) -> (r: bool)
    ensures
        r == mantissa_ok(m@),
{
    proof {
        lemma_find_bounds(m@, '.');
    }
    match find_char(m, '.') {
        None => m.len() > 0 && all_digits_vec(m),
        Some(d) => {
            let a = slice(m, 0, d);
            let b = slice(m, d + 1, m.len());
            assert(a@ =~= m@.take(d as int));
            assert(b@ =~= m@.skip(d + 1));
            m.len() > 1 && all_digits_vec(&a) && all_digits_vec(&b)
        },
    }
}

fn number_ok_vec(l: &Vec<char>) -> (r: bool)
    ensures
        r == number_ok(l@),
{
    proof {
        lemma_find_bounds(l@, 'e');
    }
    match find_char(l, 'e') {
        None => mantissa_ok_vec(l),
        Some(k) => {
            proof {
                lemma_find_bounds(l@, 'e');
            }
            assert(k < l.len());
            let a = slice(l, 0, k);
            let b = slice(l, k + 1, l.len());
            assert(a@ =~= l@.take(k as int));
            assert(b@ =~= l@.skip(k + 1));
            let e = strip_sign_vec(&b);
            mantissa_ok_vec(&a) && e.len() > 0 && all_digits_vec(&e)
        },
    }
}

/// Whether `f64::from_str` accepts `s` (see `float_ok`).
pub fn float_ok_vec(s: &Vec<char>) -> (r: bool)
    ensures
        r == float_ok(s@),
{
    let l = ascii_lower_vec(&strip_sign_vec(s));
    let t = string_of(&l);
    str_eq(t.as_str(), "inf") || str_eq(t.as_str(), "infinity") || str_eq(t.as_str(), "nan") || number_ok_vec(&l)
}

} // verus!
