//! Persistent kernel parameters: edits of `/etc/sysctl.conf`.
use crate::text::{
    chars_of, contains, contains_vec, is_whitespace, lit, push_str, slice, split, split_vec,
    starts_with, starts_with_vec, string_of, trim_start, views,
};
use vstd::prelude::*;

verus! {

/// How an entry is written.
#[derive(Debug, Clone, Copy, PartialEq, Eq, Structural)]
pub enum SysctlMode {
    /// Replace every line that sets the key, or append a marked entry when
    /// the key is not set.
    Assign,
    /// Append a marked entry unless the key occurs anywhere in the file.
    AddIfAbsent,
}

/// What to do to the file.
#[derive(Debug, Clone, PartialEq, Eq)]
pub enum FileEdit {
    /// Replace the whole file with this text.
    Rewrite(String),
    /// Append this text to the existing file (which must exist).
    Append(String),
    /// Leave the file alone.
    Keep,
}

pub enum FileEditView {
    Rewrite(Seq<char>),
    Append(Seq<char>),
    Keep,
}

impl View for FileEdit {
    type V = FileEditView;

    open spec fn view(&self) -> FileEditView {
        match self {
            FileEdit::Rewrite(s) => FileEditView::Rewrite(s@),
            FileEdit::Append(s) => FileEditView::Append(s@),
            FileEdit::Keep => FileEditView::Keep,
        }
    }
}

// ── Lines ────────────────────────────────────────────────────────────────────

/// `l` without one trailing carriage return.
pub open spec fn strip_cr(l: Seq<char>) -> Seq<char> {
    if l.len() > 0 && l.last() == '\r' {
        l.drop_last()
    } else {
        l
    }
}

/// The lines of `s` (`str::lines`): split at `\n`, a `\r` before the `\n`
/// removed, no empty last line after a final `\n`.
pub open spec fn lines(s: Seq<char>) -> Seq<Seq<char>> {
    let parts = split(s, '\n');
    let ended = parts.drop_last().map_values(|l: Seq<char>| strip_cr(l));
    if parts.last().len() == 0 {
        ended
    } else {
        ended.push(parts.last())
    }
}

/// The lines `ls` joined with `\n` between them.
pub open spec fn join_lines(ls: Seq<Seq<char>>) -> Seq<char>
    decreases ls.len(),
{
    if ls.len() == 0 {
        Seq::empty()
    } else if ls.len() == 1 {
        ls[0]
    } else {
        join_lines(ls.drop_last()) + "\n"@ + ls.last()
    }
}

// ── Lemmas on lines ──────────────────────────────────────────────────────────

/// No character of `s` is `c`.
pub open spec fn lacks(s: Seq<char>, c: char) -> bool {
    forall|i: int| 0 <= i < s.len() ==> s[i] != c
}

/// Splitting `x`, a separator and `y` gives the pieces of `x`, then those of `y`.
pub proof fn lemma_split_concat(x: Seq<char>, y: Seq<char>, sep: char)
    ensures
        split(x + seq![sep] + y, sep) == split(x, sep) + split(y, sep),
    decreases y.len(),
{
    let whole = x + seq![sep] + y;
    if y.len() == 0 {
        assert(whole.drop_last() =~= x);
        assert(split(y, sep) =~= seq![Seq::<char>::empty()]);
        assert(split(whole, sep) =~= split(x, sep) + split(y, sep));
    } else {
        let y0 = y.drop_last();
        lemma_split_concat(x, y0, sep);
        assert(whole.drop_last() =~= x + seq![sep] + y0);
        assert(whole.last() == y.last());
        crate::text::lemma_split_nonempty(y0, sep);
        crate::text::lemma_split_nonempty(x, sep);
        let a = split(x, sep);
        let b = split(y0, sep);
        if y.last() == sep {
            assert((a + b).push(Seq::<char>::empty()) =~= a + b.push(Seq::<char>::empty()));
        } else {
            assert((a + b).update((a + b).len() - 1, (a + b).last().push(y.last()))
                =~= a + b.update(b.len() - 1, b.last().push(y.last())));
        }
    }
}

/// A text without the separator is one piece.
pub proof fn lemma_split_single(s: Seq<char>, sep: char)
    requires
        lacks(s, sep),
    ensures
        split(s, sep) == seq![s],
    decreases s.len(),
{
    if s.len() > 0 {
        lemma_split_single(s.drop_last(), sep);
        assert(s.drop_last().push(s.last()) =~= s);
        assert(seq![s.drop_last()].update(0, s.drop_last().push(s.last())) =~= seq![s]);
    } else {
        assert(s =~= Seq::<char>::empty());
    }
}

/// The pieces of a split contain neither the separator nor a character
/// that `s` lacks.
pub proof fn lemma_split_pieces(s: Seq<char>, sep: char, c: char)
    ensures
        forall|i: int| 0 <= i < split(s, sep).len() ==> lacks(#[trigger] split(s, sep)[i], sep) && (lacks(s, c)
            ==> lacks(split(s, sep)[i], c)),
    decreases s.len(),
{
    if s.len() > 0 {
        let init = s.drop_last();
        lemma_split_pieces(init, sep, c);
        crate::text::lemma_split_nonempty(init, sep);
        let p = split(init, sep);
        if lacks(s, c) {
            assert(lacks(init, c)) by {
                assert forall|j: int| 0 <= j < init.len() implies init[j] != c by {
                    assert(init[j] == s[j]);
                }
            }
            assert(s[s.len() - 1] != c);
        }
        if s.last() != sep {
            let q = p.last().push(s.last());
            assert(lacks(q, sep) && (lacks(s, c) ==> lacks(q, c))) by {
                assert forall|j: int| 0 <= j < q.len() implies q[j] != sep && (lacks(s, c) ==> q[j] != c) by {
                    if j < q.len() - 1 {
                        assert(q[j] == p.last()[j]);
                        assert(p[p.len() - 1] == p.last());
                    } else {
                        assert(q[j] == s[s.len() - 1]);
                    }
                }
            }
        }
    }
}

/// Joining lines that hold no line break and splitting again gives them back.
pub proof fn lemma_split_join(ls: Seq<Seq<char>>)
    requires
        ls.len() > 0,
        forall|i: int| 0 <= i < ls.len() ==> lacks(#[trigger] ls[i], '\n'),
    ensures
        split(join_lines(ls), '\n') == ls,
    decreases ls.len(),
{
    if ls.len() == 1 {
        lemma_split_single(ls[0], '\n');
        assert(seq![ls[0]] =~= ls);
    } else {
        let init = ls.drop_last();
        lemma_split_join(init);
        lemma_split_single(ls.last(), '\n');
        reveal_strlit("\n");
        assert(join_lines(ls) =~= join_lines(init) + seq!['\n'] + ls.last());
        lemma_split_concat(join_lines(init), ls.last(), '\n');
        assert(init + seq![ls.last()] =~= ls);
    }
}

/// `l` ends with a carriage return.
pub open spec fn ends_cr(l: Seq<char>) -> bool {
    l.len() > 0 && l.last() == '\r'
}

/// `lines` gives back joined lines that hold no line break, when no line
/// that a line break follows ends with a carriage return: followed by a
/// final line break, or with a last line that is not empty.
pub proof fn lemma_lines_join(ls: Seq<Seq<char>>, final_newline: bool)
    requires
        forall|i: int| 0 <= i < ls.len() ==> lacks(#[trigger] ls[i], '\n'),
        forall|i: int| 0 <= i < ls.len() && (i + 1 < ls.len() || final_newline) ==> !ends_cr(#[trigger] ls[i]),
        !final_newline ==> ls.len() == 0 || ls.last().len() > 0,
        final_newline ==> ls.len() > 0,
    ensures
        lines(if final_newline { join_lines(ls) + "\n"@ } else { join_lines(ls) }) == ls,
{
    reveal_strlit("\n");
    let text = if final_newline { join_lines(ls) + "\n"@ } else { join_lines(ls) };
    if ls.len() == 0 {
        assert(split(text, '\n') =~= seq![Seq::<char>::empty()]);
        assert(lines(text) =~= ls);
    } else {
        lemma_split_join(ls);
        let parts = split(text, '\n');
        if final_newline {
            assert(text =~= join_lines(ls) + seq!['\n'] + Seq::<char>::empty());
            lemma_split_concat(join_lines(ls), Seq::<char>::empty(), '\n');
            assert(split(Seq::<char>::empty(), '\n') =~= seq![Seq::<char>::empty()]);
            assert(parts =~= ls.push(Seq::<char>::empty()));
            assert(parts.drop_last() =~= ls);
            assert(ls.map_values(|l: Seq<char>| strip_cr(l)) =~= ls) by {
                assert forall|i: int| 0 <= i < ls.len() implies strip_cr(ls[i]) == ls[i] by {
                    assert(!ends_cr(ls[i]));
                }
            }
        } else {
            assert(parts == ls);
            assert(parts.drop_last().map_values(|l: Seq<char>| strip_cr(l)) =~= parts.drop_last()) by {
                assert forall|i: int| 0 <= i < parts.drop_last().len() implies strip_cr(parts.drop_last()[i]) == parts.drop_last()[i] by {
                    let l = parts.drop_last()[i];
                    assert(l == ls[i]);
                    assert(!ends_cr(ls[i]));
                }
            }
            assert(parts.drop_last().push(parts.last()) =~= ls);
        }
    }
}

/// The lines of a text hold no line break; when the text does not end with
/// a line break, its last line is not empty.
pub proof fn lemma_lines_clean(s: Seq<char>)
    ensures
        forall|i: int| 0 <= i < lines(s).len() ==> lacks(#[trigger] lines(s)[i], '\n'),
        !(s.len() > 0 && s.last() == '\n') ==> lines(s).len() == 0 || lines(s).last().len() > 0,
        s.len() == 0 ==> lines(s).len() == 0,
        s.len() > 0 ==> lines(s).len() > 0,
{
    lemma_split_pieces(s, '\n', '\n');
    crate::text::lemma_split_nonempty(s, '\n');
    let parts = split(s, '\n');
    assert forall|i: int| 0 <= i < lines(s).len() implies lacks(#[trigger] lines(s)[i], '\n') by {
        let l = lines(s)[i];
        if i < parts.len() - 1 {
            assert(l == strip_cr(parts[i]));
            assert(lacks(parts[i], '\n'));
            assert forall|j: int| 0 <= j < l.len() implies l[j] != '\n' by {
                assert(l[j] == parts[i][j]);
            }
        } else {
            assert(l == parts[parts.len() - 1]);
        }
    }
    if s.len() == 0 {
        assert(parts =~= seq![Seq::<char>::empty()]);
        assert(lines(s) =~= Seq::<Seq<char>>::empty());
    }
    if s.len() > 0 && s.last() != '\n' {
        assert(parts.last() == split(s.drop_last(), '\n').last().push(s.last())) by {
            crate::text::lemma_split_nonempty(s.drop_last(), '\n');
        }
    }
    if s.len() > 0 && s.last() == '\n' {
        crate::text::lemma_split_nonempty(s.drop_last(), '\n');
        assert(parts.len() >= 2);
    }
}

// ── The edits ────────────────────────────────────────────────────────────────

/// The comment that marks an entry written here.
pub open spec fn marker(key: Seq<char>) -> Seq<char> {
    "# ztnet-box: "@ + key
}

/// The line that sets `key` in `Assign` mode, replacing an existing one.
pub open spec fn set_line(key: Seq<char>, value: Seq<char>) -> Seq<char> {
    key + " = "@ + value + "  "@ + marker(key)
}

/// `l` itself, or the entry for `key` when `l` sets `key`.
pub open spec fn set_or_keep(l: Seq<char>, key: Seq<char>, value: Seq<char>) -> Seq<char> {
    if starts_with(trim_start(l), key) {
        set_line(key, value)
    } else {
        l
    }
}

/// The edit of the file `content` that sets `key` to `value`.
pub open spec fn edit_spec(mode: SysctlMode, content: Seq<char>, key: Seq<char>, value: Seq<char>) -> FileEditView {
    match mode {
        SysctlMode::Assign => if contains(content, key + " ="@) || contains(content, key + "="@) {
            FileEditView::Rewrite(
                join_lines(
                    lines(content).map_values(|l: Seq<char>| set_or_keep(l, key, value)),
                ) + "\n"@,
            )
        } else {
            FileEditView::Append(marker(key) + "\n"@ + key + " = "@ + value + "\n"@)
        },
        SysctlMode::AddIfAbsent => if contains(content, key) {
            FileEditView::Keep
        } else {
            FileEditView::Append("\n# Added by ztnet-box\n"@ + key + " = "@ + value + "\n"@)
        },
    }
}

// ── Executable ───────────────────────────────────────────────────────────────

fn strip_cr_vec(l: &Vec<char>) -> (r: Vec<char>)
    ensures
        r@ == strip_cr(l@),
{
    if l.len() > 0 && l[l.len() - 1] == '\r' {
        slice(l, 0, l.len() - 1)
    } else {
        assert(l@.subrange(0, l.len() as int) =~= l@);
        slice(l, 0, l.len())
    }
}

/// The lines of `s`.
pub fn lines_vec(s: &Vec<char>) -> (r: Vec<Vec<char>>)
    ensures
        views(r@) == lines(s@),
{
    let parts = split_vec(s, '\n');
    proof {
        crate::text::lemma_split_nonempty(s@, '\n');
    }
    let n = parts.len() - 1;
    let mut r: Vec<Vec<char>> = Vec::new();
    let mut i: usize = 0;
    while i < n
        invariant
            n + 1 == parts.len(),
            i <= n,
            views(parts@) == split(s@, '\n'),
            views(r@) =~= views(parts@).take(i as int).map_values(|l: Seq<char>| strip_cr(l)),
        decreases n - i,
    {
        let l = strip_cr_vec(&parts[i]);
        let ghost before = views(r@);
        r.push(l);
        assert(views(r@) =~= before.push(strip_cr(views(parts@)[i as int])));
        assert(views(parts@).take(i + 1) =~= views(parts@).take(i as int).push(views(parts@)[i as int]));
        i += 1;
    }
    assert(views(parts@).take(n as int) =~= views(parts@).drop_last());
    if parts[n].len() > 0 {
        let last = slice(&parts[n], 0, parts[n].len());
        assert(parts@[n as int]@.subrange(0, parts@[n as int]@.len() as int) =~= parts@[n as int]@);
        let ghost before = views(r@);
        r.push(last);
        assert(views(r@) =~= before.push(views(parts@).last()));
    }
    r
}

/// The lines `ls` joined with `\n` between them.
pub fn join_lines_vec(ls: &Vec<Vec<char>>) -> (r: Vec<char>)
    ensures
        r@ == join_lines(views(ls@)),
{
    let mut r: Vec<char> = Vec::new();
    let mut i: usize = 0;
    while i < ls.len()
        invariant
            i <= ls.len(),
            r@ == join_lines(views(ls@).take(i as int)),
        decreases ls.len() - i,
    {
        let ghost pre = views(ls@).take(i as int);
        let ghost now = views(ls@).take(i + 1);
        assert(now.drop_last() =~= pre);
        if i > 0 {
            r.push('\n');
        } else {
            assert(now.len() == 1);
        }
        let mut j: usize = 0;
        let ghost start = r@;
        while j < ls[i].len()
            invariant
                i < ls.len(),
                j <= ls[i as int].len(),
                r@ == start + ls[i as int]@.take(j as int),
            decreases ls[i as int].len() - j,
        {
            r.push(ls[i][j]);
            assert(ls[i as int]@.take(j + 1) =~= ls[i as int]@.take(j as int).push(ls[i as int]@[j as int]));
            j += 1;
        }
        assert(ls[i as int]@.take(ls[i as int]@.len() as int) =~= ls[i as int]@);
        if i == 0 {
            assert(r@ =~= now[0]);
        } else {
            assert(r@ =~= join_lines(pre) + "\n"@ + now.last()) by {
                reveal_strlit("\n");
            }
        }
        i += 1;
    }
    assert(views(ls@).take(ls.len() as int) =~= views(ls@));
    r
}

fn copy_vec(v: &Vec<char>) -> (r: Vec<char>)
    ensures
        r@ == v@,
{
    assert(v@.subrange(0, v.len() as int) =~= v@);
    slice(v, 0, v.len())
}

/// `s` without leading whitespace.
fn trim_start_vec(s: &Vec<char>) -> (r: Vec<char>)
    ensures
        r@ == trim_start(s@),
{
    let n = s.len();
    let mut lo: usize = 0;
    assert(s@.skip(0) =~= s@);
    while lo < n && is_whitespace(s[lo])
        invariant
            lo <= n == s.len(),
            trim_start(s@) == trim_start(s@.skip(lo as int)),
        decreases n - lo,
    {
        assert(s@.skip(lo as int).drop_first() =~= s@.skip(lo + 1));
        lo += 1;
    }
    assert(s@.subrange(lo as int, n as int) =~= s@.skip(lo as int));
    slice(s, lo, n)
}

/// The edit of the file `content` that sets `key` to `value` in `mode`.
pub fn edit(mode: SysctlMode, content: &str, key: &str, value: &str) -> (r: FileEdit)
    ensures
        r@ == edit_spec(mode, content@, key@, value@),
{
    let c = chars_of(content);
    let k = chars_of(key);
    match mode {
        SysctlMode::Assign => {
            let mut k_sp = copy_vec(&k);
            push_str(&mut k_sp, " =");
            let mut k_eq = copy_vec(&k);
            push_str(&mut k_eq, "=");
            if contains_vec(&c, &k_sp) || contains_vec(&c, &k_eq) {
                let ls = lines_vec(&c);
                let mut line = copy_vec(&k);
                push_str(&mut line, " = ");
                push_str(&mut line, value);
                push_str(&mut line, "  ");
                push_str(&mut line, "# ztnet-box: ");
                push_str(&mut line, key);
                let ghost want = set_line(key@, value@);
                assert(line@ =~= want);
                let mut out: Vec<Vec<char>> = Vec::new();
                let mut i: usize = 0;
                while i < ls.len()
                    invariant
                        i <= ls.len(),
                        k@ == key@,
                        line@ == want,
                        want == set_line(key@, value@),
                        views(out@) =~= views(ls@).take(i as int).map_values(|l: Seq<char>| set_or_keep(l, key@, value@)),
                    decreases ls.len() - i,
                {
                    let t = trim_start_vec(&ls[i]);
                    let ghost before = views(out@);
                    let ghost li = views(ls@)[i as int];
                    assert(li == ls@[i as int]@);
                    if starts_with_vec(&t, &k) {
                        let c = copy_vec(&line);
                        assert(set_or_keep(li, key@, value@) == c@);
                        out.push(c);
                    } else {
                        let c = copy_vec(&ls[i]);
                        assert(set_or_keep(li, key@, value@) == c@);
                        out.push(c);
                    }
                    assert(views(out@) =~= before.push(set_or_keep(views(ls@)[i as int], key@, value@)));
                    assert(views(ls@).take(i + 1) =~= views(ls@).take(i as int).push(views(ls@)[i as int]));
                    i += 1;
                }
                assert(views(ls@).take(ls.len() as int) =~= views(ls@));
                let mut joined = join_lines_vec(&out);
                push_str(&mut joined, "\n");
                FileEdit::Rewrite(string_of(&joined))
            } else {
                let mut t = lit("# ztnet-box: ");
                push_str(&mut t, key);
                push_str(&mut t, "\n");
                push_str(&mut t, key);
                push_str(&mut t, " = ");
                push_str(&mut t, value);
                push_str(&mut t, "\n");
                FileEdit::Append(string_of(&t))
            }
        },
        SysctlMode::AddIfAbsent => {
            if contains_vec(&c, &k) {
                FileEdit::Keep
            } else {
                let mut t = lit("\n# Added by ztnet-box\n");
                push_str(&mut t, key);
                push_str(&mut t, " = ");
                push_str(&mut t, value);
                push_str(&mut t, "\n");
                FileEdit::Append(string_of(&t))
            }
        },
    }
}

// ── Laws ─────────────────────────────────────────────────────────────────────

/// Once an entry has been appended, writing the same key again in
/// `AddIfAbsent` mode leaves the file alone.
pub proof fn lemma_add_if_absent_once(content: Seq<char>, key: Seq<char>, value: Seq<char>, added: Seq<char>)
    requires
        edit_spec(SysctlMode::AddIfAbsent, content, key, value) == FileEditView::Append(added),
    ensures
        edit_spec(SysctlMode::AddIfAbsent, content + added, key, value) == FileEditView::Keep,
{
    let pre = "\n# Added by ztnet-box\n"@;
    let all = content + added;
    let i: int = (content.len() + pre.len()) as int;
    assert(added == pre + key + " = "@ + value + "\n"@);
    assert(all.subrange(i, i + key.len()) =~= key);
    assert(crate::text::occurs_at(all, key, i));
}

/// Once an entry has been appended in `Assign` mode, setting the same key
/// again rewrites the file instead of appending a second entry.
pub proof fn lemma_assign_appends_once(content: Seq<char>, key: Seq<char>, value: Seq<char>, added: Seq<char>)
    requires
        edit_spec(SysctlMode::Assign, content, key, value) == FileEditView::Append(added),
    ensures
        edit_spec(SysctlMode::Assign, content + added, key, value) is Rewrite,
{
    reveal_strlit(" = ");
    reveal_strlit(" =");
    let pre = marker(key) + "\n"@;
    let all = content + added;
    let sub = key + " ="@;
    let i: int = (content.len() + pre.len()) as int;
    assert(added =~= pre + key + " = "@ + value + "\n"@);
    assert(all.subrange(i, i + sub.len()) =~= sub) by {
        reveal_strlit(" = ");
        reveal_strlit(" =");
    }
    assert(crate::text::occurs_at(all, sub, i));
}

} // verus!
