//! Prometheus text format → samples.
//!
//! Each sample keeps its value as the text that stood in the value position,
//! which is always text that `f64::from_str` accepts: a line whose value is
//! not a number is no sample. Turning the text into a float is the caller's
//! part.
use crate::text::{
    float_ok, float_ok_vec,
    chars_of, find, find_char, is_ws, lemma_find_bounds, parse_i64, slice, split, split_vec,
    string_of, strip_char, trim, trim_start, trim_vec, views, word_len,
};
use vstd::prelude::*;

verus! {

/// One sample line: `name{k="v",...} value [timestamp]`.
#[derive(Debug, Clone)]
pub struct RawSample {
    pub name: String,
    /// Label pairs in the order they appear; a later pair wins over an earlier
    /// one with the same key.
    pub labels: Vec<(String, String)>,
    /// The text in the value position.
    pub value: String,
    pub timestamp: Option<i64>,
}

/// The mathematical model of a sample.
pub struct SampleSpec {
    pub name: Seq<char>,
    pub labels: Seq<(Seq<char>, Seq<char>)>,
    pub value: Seq<char>,
    pub timestamp: Option<int>,
}

pub open spec fn label_views(v: Seq<(String, String)>) -> Seq<(Seq<char>, Seq<char>)> {
    v.map_values(|p: (String, String)| (p.0@, p.1@))
}

impl View for RawSample {
    type V = SampleSpec;

    open spec fn view(&self) -> SampleSpec {
        SampleSpec {
            name: self.name@,
            labels: label_views(self.labels@),
            value: self.value@,
            timestamp: match self.timestamp {
                Some(t) => Some(t as int),
                None => None,
            },
        }
    }
}

pub open spec fn sample_views(v: Seq<RawSample>) -> Seq<SampleSpec> {
    v.map_values(|s: RawSample| s@)
}

// ── Specification of the format ───────────────────────────────────────────────

/// One `key=value` item of a label list, with the key and value trimmed and
/// the quotes around the value removed; `None` for an item without `=`.
pub open spec fn label_pair(p: Seq<char>) -> Option<(Seq<char>, Seq<char>)> {
    match find(p, '=') {
        None => None,
        Some(e) => Some((trim(p.take(e)), strip_char(trim(p.skip(e + 1)), '"'))),
    }
}

/// The label pairs of the comma-separated items `items`, skipping blank
/// items; `None` when an item has no `=`.
pub open spec fn labels_of(items: Seq<Seq<char>>) -> Option<Seq<(Seq<char>, Seq<char>)>>
    decreases items.len(),
{
    if items.len() == 0 {
        Some(Seq::empty())
    } else {
        match labels_of(items.drop_last()) {
            None => None,
            Some(acc) => {
                let p = trim(items.last());
                if p.len() == 0 {
                    Some(acc)
                } else {
                    match label_pair(p) {
                        None => None,
                        Some(kv) => Some(acc.push(kv)),
                    }
                }
            },
        }
    }
}

/// The labels between the braces of a sample line.
pub open spec fn parse_labels_spec(s: Seq<char>) -> Option<Seq<(Seq<char>, Seq<char>)>> {
    labels_of(split(s, ','))
}

/// The sample whose value and optional timestamp are the first two
/// whitespace-separated words of `rest`, which has no surrounding whitespace;
/// none when the value is not a number.
pub open spec fn value_ts(
    name: Seq<char>,
    labels: Seq<(Seq<char>, Seq<char>)>,
    rest: Seq<char>,
) -> Option<SampleSpec> {
    let w = word_len(rest);
    if w == 0 || !float_ok(rest.take(w as int)) {
        None
    } else {
        let r2 = trim_start(rest.skip(w as int));
        let w2 = word_len(r2);
        Some(
            SampleSpec {
                name,
                labels,
                value: rest.take(w as int),
                timestamp: if w2 == 0 {
                    None
                } else {
                    parse_i64(r2.take(w2 as int))
                },
            },
        )
    }
}

/// The sample of a trimmed, non-comment line; `None` for a line that is not
/// a sample (a line whose `}` comes before its `{` is not one).
pub open spec fn parse_line_spec(l: Seq<char>) -> Option<SampleSpec> {
    match find(l, '{') {
        Some(b) => match find(l, '}') {
            None => None,
            Some(c) => if c < b {
                None
            } else {
                match parse_labels_spec(l.subrange(b + 1, c)) {
                None => None,
                    Some(labels) => value_ts(l.take(b), labels, trim(l.skip(c + 1))),
                }
            },
        },
        None => match find(l, ' ') {
            None => None,
            Some(sp) => value_ts(l.take(sp), Seq::empty(), trim(l.skip(sp + 1))),
        },
    }
}

/// The sample of one raw line: blank lines and `#` lines give none.
/// Splitting at `\n` and trimming each piece gives the same trimmed lines as
/// `str::lines` does, since `\r` is whitespace.
pub open spec fn line_sample(raw: Seq<char>) -> Option<SampleSpec> {
    let l = trim(raw);
    if l.len() == 0 || l[0] == '#' {
        None
    } else {
        parse_line_spec(l)
    }
}

/// The samples of `input`, in order.
pub open spec fn parse_spec(input: Seq<char>) -> Seq<SampleSpec> {
    split(input, '\n').filter_map(|raw: Seq<char>| line_sample(raw))
}

// ── Implementation ────────────────────────────────────────────────────────────

fn strip_quotes(s: &Vec<char>) -> (r: Vec<char>)
    ensures
        r@ == strip_char(s@, '"'),
{
    let n = s.len();
    let mut lo: usize = 0;
    assert(s@.skip(0) =~= s@);
    while lo < n && s[lo] == '"'
        invariant
            lo <= n == s.len(),
            crate::text::strip_char_start(s@, '"') == crate::text::strip_char_start(
                s@.skip(lo as int),
                '"',
            ),
        decreases n - lo,
    {
        assert(s@.skip(lo as int).drop_first() =~= s@.skip(lo + 1));
        lo += 1;
    }
    let mut hi: usize = n;
    assert(s@.subrange(lo as int, n as int) =~= s@.skip(lo as int));
    while hi > lo && s[hi - 1] == '"'
        invariant
            lo <= hi <= n == s.len(),
            crate::text::strip_char_start(s@.skip(lo as int), '"') == s@.skip(lo as int) || lo == n,
            strip_char(s@, '"') == crate::text::strip_char_end(
                s@.subrange(lo as int, hi as int),
                '"',
            ),
        decreases hi,
    {
        assert(s@.subrange(lo as int, hi as int).drop_last() =~= s@.subrange(
            lo as int,
            hi - 1,
        ));
        hi -= 1;
    }
    slice(s, lo, hi)
}

fn parse_labels(s: &Vec<char>) -> (r: Option<Vec<(String, String)>>)
    ensures
        match r {
            Some(v) => parse_labels_spec(s@) == Some(label_views(v@)),
            None => parse_labels_spec(s@) is None,
        },
{
    let items = split_vec(s, ',');
    let ghost its = split(s@, ',');
    let mut out: Vec<(String, String)> = Vec::new();
    let mut i: usize = 0;
    while i < items.len()
        invariant
            i <= items.len(),
            views(items@) == its,
            its == split(s@, ','),
            labels_of(its.take(i as int)) == Some(label_views(out@)),
        decreases items.len() - i,
    {
        assert(its.take(i + 1).drop_last() =~= its.take(i as int));
        assert(its.take(i + 1).last() == items@[i as int]@);
        let p = trim_vec(&items[i]);
        if p.len() == 0 {
        } else {
            match find_char(&p, '=') {
                None => {
                    assert(labels_of(its.take(i + 1)) is None);
                    proof {
                        lemma_labels_none_sticks(its, i as int + 1);
                    }
                    assert(its.take(its.len() as int) =~= its);
                    return None;
                },
                Some(e) => {
                    proof {
                        lemma_find_bounds(p@, '=');
                    }
                    let k = trim_vec(&slice(&p, 0, e));
                    let v = strip_quotes(&trim_vec(&slice(&p, e + 1, p.len())));
                    assert(p@.take(e as int) =~= p@.subrange(0, e as int));
                    assert(p@.skip(e + 1) =~= p@.subrange(e + 1, p@.len() as int));
                    let ghost old_out = label_views(out@);
                    out.push((string_of(&k), string_of(&v)));
                    assert(label_views(out@) =~= old_out.push((k@, v@)));
                },
            }
        }
        i += 1;
    }
    assert(its.take(its.len() as int) =~= its);
    Some(out)
}

proof fn lemma_labels_none_sticks(items: Seq<Seq<char>>, k: int)
    requires
        0 <= k <= items.len(),
        labels_of(items.take(k)) is None,
    ensures
        labels_of(items) is None,
    decreases items.len() - k,
{
    if k < items.len() {
        assert(items.take(k + 1).drop_last() =~= items.take(k));
        lemma_labels_none_sticks(items, k + 1);
    } else {
        assert(items.take(k) =~= items);
    }
}

/// Length of the leading word of `s` from position `lo`.
fn word_end(s: &Vec<char>, lo: usize) -> (r: usize)
    requires
        lo <= s.len(),
    ensures
        lo <= r <= s.len(),
        r - lo == word_len(s@.skip(lo as int)),
{
    let mut i = lo;
    while i < s.len() && !crate::text::is_whitespace(s[i])
        invariant
            lo <= i <= s.len(),
            word_len(s@.skip(lo as int)) == (i - lo) + word_len(s@.skip(i as int)),
        decreases s.len() - i,
    {
        assert(s@.skip(i as int).drop_first() =~= s@.skip(i + 1));
        i += 1;
    }
    i
}

fn skip_ws(s: &Vec<char>, lo: usize) -> (r: usize)
    requires
        lo <= s.len(),
    ensures
        lo <= r <= s.len(),
        s@.skip(r as int) == trim_start(s@.skip(lo as int)),
{
    let mut i = lo;
    while i < s.len() && crate::text::is_whitespace(s[i])
        invariant
            lo <= i <= s.len(),
            trim_start(s@.skip(lo as int)) == trim_start(s@.skip(i as int)),
        decreases s.len() - i,
    {
        assert(s@.skip(i as int).drop_first() =~= s@.skip(i + 1));
        i += 1;
    }
    if i == s.len() {
        assert(s@.skip(i as int) =~= Seq::<char>::empty());
    }
    i
}

fn parse_i64_vec(s: &Vec<char>) -> (r: Option<i64>)
    ensures
        match r {
            Some(v) => parse_i64(s@) == Some(v as int),
            None => parse_i64(s@) is None,
        },
{
    if s.len() > 1 && s[0] == '-' {
        let d = slice(s, 1, s.len());
        assert(d@ =~= s@.drop_first());
        if d.len() > 1 && d[0] == '+' {
            // "-+5" is not a number
            assert(!crate::text::is_digit(d@[0]));
            assert(!crate::text::all_digits(d@));
            return None;
        }
        assert(crate::text::unsigned_digits(d@) == d@);
        match crate::text::parse_uint(&d, 0x8000_0000_0000_0000u64) {
            None => None,
            Some(m) => {
                if m == 0x8000_0000_0000_0000u64 {
                    Some(i64::MIN)
                } else {
                    Some(-(m as i64))
                }
            },
        }
    } else {
        match crate::text::parse_uint(s, 0x7fff_ffff_ffff_ffffu64) {
            None => None,
            Some(m) => Some(m as i64),
        }
    }
}

fn value_ts_exec(name: Vec<char>, labels: Vec<(String, String)>, rest: &Vec<char>) -> (r: Option<
    RawSample,
>)
    ensures
        match r {
            Some(x) => value_ts(name@, label_views(labels@), rest@) == Some(x@),
            None => value_ts(name@, label_views(labels@), rest@) is None,
        },
{
    let w = word_end(rest, 0);
    assert(rest@.skip(0) =~= rest@);
    if w == 0 {
        return None;
    }
    let value = slice(rest, 0, w);
    assert(value@ =~= rest@.take(w as int));
    if !float_ok_vec(&value) {
        return None;
    }
    let s2 = skip_ws(rest, w);
    let w2 = word_end(rest, s2);
    let timestamp = if w2 == s2 {
        None
    } else {
        let t = slice(rest, s2, w2);
        assert(t@ =~= rest@.skip(s2 as int).take((w2 - s2) as int));
        parse_i64_vec(&t)
    };
    Some(RawSample { name: string_of(&name), labels, value: string_of(&value), timestamp })
}

fn parse_line(l: &Vec<char>) -> (r: Option<RawSample>)
    ensures
        match r {
            Some(x) => parse_line_spec(l@) == Some(x@),
            None => parse_line_spec(l@) is None,
        },
{
    proof {
        lemma_find_bounds(l@, '{');
        lemma_find_bounds(l@, '}');
        lemma_find_bounds(l@, ' ');
    }
    match find_char(l, '{') {
        Some(b) => {
            let c = match find_char(l, '}') {
                None => {
                    return None;
                },
                Some(c) => c,
            };
            if c < b {
                return None;
            }
            let inner = slice(l, b + 1, c);
            let labels = match parse_labels(&inner) {
                None => {
                    return None;
                },
                Some(v) => v,
            };
            let name = slice(l, 0, b);
            assert(name@ =~= l@.take(b as int));
            let after = trim_vec(&slice(l, c + 1, l.len()));
            assert(l@.subrange(c + 1, l@.len() as int) =~= l@.skip(c + 1));
            value_ts_exec(name, labels, &after)
        },
        None => match find_char(l, ' ') {
            None => None,
            Some(sp) => {
                proof {
                    lemma_find_bounds(l@, ' ');
                }
                assert(sp < l.len());
                let name = slice(l, 0, sp);
                assert(name@ =~= l@.take(sp as int));
                let after = trim_vec(&slice(l, sp + 1, l.len()));
                assert(l@.subrange(sp + 1, l@.len() as int) =~= l@.skip(sp + 1));
                let labels: Vec<(String, String)> = Vec::new();
                assert(label_views(labels@) =~= Seq::<(Seq<char>, Seq<char>)>::empty());
                value_ts_exec(name, labels, &after)
            },
        },
    }
}

/// Parses Prometheus text format into samples, in line order. Blank lines,
/// `# HELP` / `# TYPE` comments and lines that are not samples are skipped.
pub fn parse(input: &str) -> (r: Vec<RawSample>)
    ensures
        sample_views(r@) == parse_spec(input@),
{
    let text = chars_of(input);
    let lines = split_vec(&text, '\n');
    let ghost ls = split(input@, '\n');
    let ghost f = |raw: Seq<char>| line_sample(raw);
    let mut out: Vec<RawSample> = Vec::new();
    let mut i: usize = 0;
    while i < lines.len()
        invariant
            i <= lines.len(),
            views(lines@) == ls,
            ls == split(input@, '\n'),
            f == (|raw: Seq<char>| line_sample(raw)),
            sample_views(out@) == ls.take(i as int).filter_map(f),
        decreases lines.len() - i,
    {
        proof {
            ls.lemma_filter_map_take_succ(f, i as int);
        }
        assert(views(lines@)[i as int] == lines@[i as int]@);
        let l = trim_vec(&lines[i]);
        if l.len() == 0 || l[0] == '#' {
            assert(f(ls[i as int]) is None);
        } else {
            match parse_line(&l) {
                None => {
                    assert(f(ls[i as int]) is None);
                },
                Some(x) => {
                    let ghost old = sample_views(out@);
                    out.push(x);
                    assert(f(ls[i as int]) == Some(x@));
                    assert(sample_views(out@) =~= old + seq![x@]);
                },
            }
        }
        i += 1;
    }
    assert(ls.take(lines.len() as int) =~= ls);
    out
}

} // verus!
