//! The buffer of recent log entries that the log API serves.
//!
//! Entries below the capture level are dropped; the buffer keeps the
//! newest `BUFFER_CAP` entries, oldest first.
use crate::text::{ascii_lower, ascii_lower_char, is_ascii};
use std::collections::VecDeque;
use vstd::prelude::*;

verus! {

/// Severity, from least to most severe.
#[derive(Debug, Clone, Copy, PartialEq, Eq, Structural)]
pub enum LogLevel {
    Trace,
    Debug,
    Info,
    Warn,
    Error,
}

#[verifier::external_type_specification]
#[verifier::external_body]
pub struct ExTracingLevel(tracing::Level);

impl LogLevel {
    /// The position of the level in the order of severity.
    pub open spec fn rank(self) -> int {
        match self {
            LogLevel::Trace => 0,
            LogLevel::Debug => 1,
            LogLevel::Info => 2,
            LogLevel::Warn => 3,
            LogLevel::Error => 4,
        }
    }

    /// Whether `self` is at least as severe as `other`.
    pub fn at_least(self, other: LogLevel) -> (r: bool)
        ensures
            r == (self.rank() >= other.rank()),
    {
        let a: u8 = match self {
            LogLevel::Trace => 0,
            LogLevel::Debug => 1,
            LogLevel::Info => 2,
            LogLevel::Warn => 3,
            LogLevel::Error => 4,
        };
        let b: u8 = match other {
            LogLevel::Trace => 0,
            LogLevel::Debug => 1,
            LogLevel::Info => 2,
            LogLevel::Warn => 3,
            LogLevel::Error => 4,
        };
        a >= b
    }

    /// The level of a `tracing` event: each of tracing's five levels to the
    /// one of the same name.
    #[verifier::external_body]
    pub fn from_tracing(level: &tracing::Level) -> LogLevel {
        match *level {
            tracing::Level::ERROR => LogLevel::Error,
            tracing::Level::WARN => LogLevel::Warn,
            tracing::Level::INFO => LogLevel::Info,
            tracing::Level::DEBUG => LogLevel::Debug,
            tracing::Level::TRACE => LogLevel::Trace,
        }
    }

    pub open spec fn name(self) -> Seq<char> {
        match self {
            LogLevel::Error => "error"@,
            LogLevel::Warn => "warn"@,
            LogLevel::Info => "info"@,
            LogLevel::Debug => "debug"@,
            LogLevel::Trace => "trace"@,
        }
    }

    /// The lower-case name of the level.
    pub fn as_str(self) -> (r: &'static str)
        ensures
            r@ == self.name(),
    {
        match self {
            LogLevel::Error => "error",
            LogLevel::Warn => "warn",
            LogLevel::Info => "info",
            LogLevel::Debug => "debug",
            LogLevel::Trace => "trace",
        }
    }

    /// The level of a name, in any letter case (`warning` names `Warn`).
    /// Each level's own name (`as_str`) gives that level back.
    pub fn parse(s: &str) -> (r: Result<LogLevel, String>)
        ensures
            match r {
                Ok(v) => level_of_name(s@) == Some(v),
                Err(m) => level_of_name(s@) is None && m@ == "unknown log level '"@ + lowercase_of(s@) + "'"@,
            },
            forall|lv: LogLevel| #[trigger] lv.name() == s@ ==> r == Ok::<LogLevel, String>(lv),
            is_ascii(s@) ==> level_of_name(s@) == level_of_lower(ascii_lower(s@)),
    {
        let l = lowercase(s);
        proof {
            reveal_strlit("error");
            reveal_strlit("warn");
            reveal_strlit("warning");
            reveal_strlit("info");
            reveal_strlit("debug");
            reveal_strlit("trace");
            assert forall|lv: LogLevel| #[trigger] lv.name() == s@ implies l@ == lv.name() by {
                lemma_name_is_lower(lv);
            }
        }
        let r = if crate::text::str_eq(l.as_str(), "error") {
            Ok(LogLevel::Error)
        } else if crate::text::str_eq(l.as_str(), "warn") || crate::text::str_eq(l.as_str(), "warning") {
            Ok(LogLevel::Warn)
        } else if crate::text::str_eq(l.as_str(), "info") {
            Ok(LogLevel::Info)
        } else if crate::text::str_eq(l.as_str(), "debug") {
            Ok(LogLevel::Debug)
        } else if crate::text::str_eq(l.as_str(), "trace") {
            Ok(LogLevel::Trace)
        } else {
            let mut b = crate::text::lit("unknown log level '");
            crate::text::push_str(&mut b, l.as_str());
            crate::text::push_str(&mut b, "'");
            Err(crate::text::string_of(&b))
        };
        proof {
            assert forall|lv: LogLevel| #[trigger] lv.name() == s@ implies r == Ok::<LogLevel, String>(lv) by {
                assert(l@ == lv.name());
                match lv {
                    LogLevel::Error => {},
                    LogLevel::Warn => {
                        assert(l@ != "error"@);
                    },
                    LogLevel::Info => {
                        assert(l@ != "error"@);
                        assert(l@ != "warn"@ && l@ != "warning"@) by {
                            assert(l@[0] != "warn"@[0]);
                        }
                    },
                    LogLevel::Debug => {
                        assert(l@ != "error"@) by {
                            assert(l@[0] != "error"@[0]);
                        }
                        assert(l@ != "info"@ && l@ != "warn"@ && l@ != "warning"@);
                    },
                    LogLevel::Trace => {
                        assert(l@ != "error"@) by {
                            assert(l@[0] != "error"@[0]);
                        }
                        assert(l@ != "info"@ && l@ != "warn"@ && l@ != "warning"@);
                        assert(l@ != "debug"@) by {
                            assert(l@[0] != "debug"@[0]);
                        }
                    },
                }
            }
        }
        r
    }
}

/// What `str::to_lowercase` returns for a text.
pub uninterp spec fn lowercase_of(s: Seq<char>) -> Seq<char>;

/// `str::to_lowercase` (Unicode lower case), which on ASCII text lowers
/// exactly the capitals `A`–`Z`, as Unicode's case mapping does.
#[verifier::external_body]
fn lowercase(s: &str) -> (r: String)
    ensures
        r@ == lowercase_of(s@),
        is_ascii(s@) ==> r@ == ascii_lower(s@),
{
    s.to_lowercase()
}

/// The level a name names, after lower-casing; `None` for an unknown name.
pub open spec fn level_of_name(s: Seq<char>) -> Option<LogLevel> {
    level_of_lower(lowercase_of(s))
}

/// The level a lower-case name names.
pub open spec fn level_of_lower(l: Seq<char>) -> Option<LogLevel> {
    if l == "error"@ {
        Some(LogLevel::Error)
    } else if l == "warn"@ || l == "warning"@ {
        Some(LogLevel::Warn)
    } else if l == "info"@ {
        Some(LogLevel::Info)
    } else if l == "debug"@ {
        Some(LogLevel::Debug)
    } else if l == "trace"@ {
        Some(LogLevel::Trace)
    } else {
        None
    }
}

/// Each level's name is ASCII and already in lower case.
pub proof fn lemma_name_is_lower(lv: LogLevel)
    ensures
        is_ascii(lv.name()),
        ascii_lower(lv.name()) == lv.name(),
{
    reveal_strlit("error");
    reveal_strlit("warn");
    reveal_strlit("info");
    reveal_strlit("debug");
    reveal_strlit("trace");
    let n = lv.name();
    assert forall|i: int| 0 <= i < n.len() implies (#[trigger] n[i] as u32) < 128 && ascii_lower_char(n[i]) == n[i] by {
        match lv {
            LogLevel::Error => {},
            LogLevel::Warn => {},
            LogLevel::Info => {},
            LogLevel::Debug => {},
            LogLevel::Trace => {},
        }
    }
    assert(ascii_lower(n) =~= n);
}

/// A captured log event.
#[derive(Debug, Clone)]
pub struct LogEntry {
    /// When it happened (RFC 3339).
    pub timestamp: String,
    pub level: LogLevel,
    pub target: String,
    pub message: String,
}

/// How many entries the buffer keeps.
pub const BUFFER_CAP: usize = 500;

/// The recent entries and the capture level.
#[derive(Debug)]
pub struct LogBuffer {
    entries: VecDeque<LogEntry>,
    min_level: LogLevel,
}

/// The entries of `s` at least as severe as `min`, in order.
pub open spec fn at_least(s: Seq<LogEntry>, min: LogLevel) -> Seq<LogEntry>
    decreases s.len(),
{
    if s.len() == 0 {
        s
    } else {
        let rest = at_least(s.drop_last(), min);
        if s.last().level.rank() >= min.rank() {
            rest.push(s.last())
        } else {
            rest
        }
    }
}

/// The last `limit` of `s` (all of it when shorter).
pub open spec fn last_n(s: Seq<LogEntry>, limit: int) -> Seq<LogEntry> {
    if s.len() <= limit {
        s
    } else {
        s.skip(s.len() - limit)
    }
}

/// The buffer after an entry arrives.
pub open spec fn pushed(buf: Seq<LogEntry>, min: LogLevel, e: LogEntry) -> Seq<LogEntry> {
    if e.level.rank() < min.rank() {
        buf
    } else if buf.len() == BUFFER_CAP {
        buf.drop_first().push(e)
    } else {
        buf.push(e)
    }
}

impl LogBuffer {
    /// The entries, oldest first.
    pub closed spec fn view_entries(&self) -> Seq<LogEntry> {
        self.entries@
    }

    pub closed spec fn level(&self) -> LogLevel {
        self.min_level
    }

    /// The buffer never holds more than `BUFFER_CAP` entries.
    pub closed spec fn well_formed(&self) -> bool {
        self.entries@.len() <= BUFFER_CAP
    }

    /// An empty buffer capturing `Info` and above.
    pub fn new() -> (r: Self)
        ensures
            r.well_formed(),
            r.view_entries().len() == 0,
            r.level() == LogLevel::Info,
    {
        LogBuffer { entries: VecDeque::new(), min_level: LogLevel::Info }
    }

    /// Takes an entry: dropped when below the capture level; else kept,
    /// the oldest entry evicted when the buffer is full.
    pub fn push(&mut self, entry: LogEntry) -> (kept: bool)
        requires
            old(self).well_formed(),
        ensures
            final(self).well_formed(),
            final(self).view_entries() == pushed(old(self).view_entries(), old(self).level(), entry),
            final(self).level() == old(self).level(),
            kept == (entry.level.rank() >= old(self).level().rank()),
    {
        if !entry.level.at_least(self.min_level) {
            return false;
        }
        if self.entries.len() == BUFFER_CAP {
            let _ = self.entries.pop_front();
            assert(self.entries@ =~= old(self).entries@.drop_first());
        }
        self.entries.push_back(entry);
        true
    }

    /// Takes a log event (its level, target and message, stamped with
    /// `timestamp`), as `push` does: kept unless below the capture level.
    pub fn record_event(&mut self, timestamp: String, level: LogLevel, target: String, message: String) -> (kept: bool)
        requires
            old(self).well_formed(),
        ensures
            final(self).well_formed(),
            final(self).level() == old(self).level(),
            final(self).view_entries() == pushed(
                old(self).view_entries(),
                old(self).level(),
                LogEntry { timestamp, level, target, message },
            ),
            kept == (level.rank() >= old(self).level().rank()),
    {
        self.push(LogEntry { timestamp, level, target, message })
    }

    /// The newest `limit` entries at least as severe as `min_level`
    /// (`Trace` when none is given), oldest first.
    pub fn entries(&self, min_level: Option<LogLevel>, limit: usize) -> (r: Vec<LogEntry>)
        ensures
            r@ == last_n(
                at_least(
                    self.view_entries(),
                    match min_level {
                        Some(l) => l,
                        None => LogLevel::Trace,
                    },
                ),
                limit as int,
            ),
    {
        let min = match min_level {
            Some(l) => l,
            None => LogLevel::Trace,
        };
        let mut all: Vec<LogEntry> = Vec::new();
        let mut i: usize = 0;
        while i < self.entries.len()
            invariant
                i <= self.entries.len(),
                all@ == at_least(self.entries@.take(i as int), min),
            decreases self.entries.len() - i,
        {
            assert(self.entries@.take(i + 1).drop_last() =~= self.entries@.take(i as int));
            if self.entries[i].level.at_least(min) {
                all.push(copy_entry(&self.entries[i]));
            }
            i += 1;
        }
        assert(self.entries@.take(self.entries.len() as int) =~= self.entries@);
        if all.len() <= limit {
            all
        } else {
            let start = all.len() - limit;
            let mut r: Vec<LogEntry> = Vec::new();
            let mut k = start;
            while k < all.len()
                invariant
                    start <= k <= all.len(),
                    r@ == all@.subrange(start as int, k as int),
                decreases all.len() - k,
            {
                r.push(copy_entry(&all[k]));
                assert(all@.subrange(start as int, k + 1) =~= all@.subrange(start as int, k as int).push(all@[k as int]));
                k += 1;
            }
            assert(all@.subrange(start as int, all.len() as int) =~= all@.skip(start as int));
            r
        }
    }

    /// Empties the buffer.
    pub fn clear(&mut self)
        ensures
            final(self).well_formed(),
            final(self).view_entries().len() == 0,
            final(self).level() == old(self).level(),
    {
        self.entries = VecDeque::new();
    }

    /// Changes the capture level.
    pub fn set_level(&mut self, level: LogLevel)
        ensures
            final(self).view_entries() == old(self).view_entries(),
            final(self).level() == level,
            old(self).well_formed() ==> final(self).well_formed(),
    {
        self.min_level = level;
    }

    /// The capture level.
    pub fn current_level(&self) -> (r: LogLevel)
        ensures
            r == self.level(),
    {
        self.min_level
    }
}

fn copy_entry(e: &LogEntry) -> (r: LogEntry)
    ensures
        r == *e,
{
    LogEntry { timestamp: e.timestamp.clone(), level: e.level, target: e.target.clone(), message: e.message.clone() }
}

// ── Laws ─────────────────────────────────────────────────────────────────────

/// After any entry arrives, the buffer still holds at most `BUFFER_CAP`
/// entries, and a kept entry is the newest one.
pub proof fn lemma_push_bounded(buf: Seq<LogEntry>, min: LogLevel, e: LogEntry)
    requires
        buf.len() <= BUFFER_CAP,
    ensures
        pushed(buf, min, e).len() <= BUFFER_CAP,
        e.level.rank() >= min.rank() ==> pushed(buf, min, e).last() == e,
        e.level.rank() >= min.rank() && buf.len() == BUFFER_CAP ==> pushed(buf, min, e) == buf.skip(1).push(e),
{
    assert(buf.drop_first() =~= buf.skip(1));
}

/// What `entries` returns holds only entries at least as severe as asked,
/// at most `limit` of them, in buffer order.
pub proof fn lemma_entries_filtered(s: Seq<LogEntry>, min: LogLevel, limit: int)
    requires
        limit >= 0,
    ensures
        last_n(at_least(s, min), limit).len() <= limit,
        forall|i: int| 0 <= i < last_n(at_least(s, min), limit).len()
            ==> (#[trigger] last_n(at_least(s, min), limit)[i]).level.rank() >= min.rank(),
{
    lemma_at_least_levels(s, min);
}

proof fn lemma_at_least_levels(s: Seq<LogEntry>, min: LogLevel)
    ensures
        at_least(s, min).len() <= s.len(),
        forall|i: int| 0 <= i < at_least(s, min).len() ==> (#[trigger] at_least(s, min)[i]).level.rank() >= min.rank(),
    decreases s.len(),
{
    if s.len() > 0 {
        lemma_at_least_levels(s.drop_last(), min);
    }
}

} // verus!
