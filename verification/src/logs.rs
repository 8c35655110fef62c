//! Logs view: a capacity-bounded log history with scroll position and
//! optional level/service filters.
//!
//! The history is a bounded ring: each append past the capacity evicts the
//! single oldest entry, so the retained window is always the newest entries
//! in arrival order. The scroll offset is a pure view position: it is
//! clamped when content is projected, never when state is mutated, so it
//! may transiently point past the end.

use vstd::prelude::*;
use vstd::string::*;

use crate::events::LogEntry;
use crate::text::{push_char, spec_pad_right, pad_right, spec_timestamp, format_timestamp, dec_digits, u64_string};

verus! {

/// Capacity of the log ring: the retained history never exceeds this.
pub const MAX_LOG_ENTRIES: usize = 1000;

/// `s` with `e` appended and, when that exceeds the capacity, the single
/// oldest entry evicted.
pub open spec fn log_append(s: Seq<LogEntry>, e: LogEntry) -> Seq<LogEntry> {
    let t = s.push(e);
    if t.len() > MAX_LOG_ENTRIES {
        t.drop_first()
    } else {
        t
    }
}

/// `s` after appending every line of `lines` in order, evicting as each
/// append goes past the capacity.
pub open spec fn append_all(s: Seq<LogEntry>, lines: Seq<LogEntry>) -> Seq<LogEntry>
    decreases lines.len(),
{
    if lines.len() == 0 {
        s
    } else {
        log_append(append_all(s, lines.drop_last()), lines.last())
    }
}

/// The bounded-ring law: appending any batch of lines to a history within
/// capacity keeps exactly the newest `MAX_LOG_ENTRIES` lines, in order,
/// evicting oldest-first, and the history never exceeds the capacity.
pub proof fn lemma_log_window(s: Seq<LogEntry>, lines: Seq<LogEntry>)
    requires
        s.len() <= MAX_LOG_ENTRIES,
    ensures
        ({
            let t = append_all(s, lines);
            let total = s.len() + lines.len();
            &&& t.len() == if total <= MAX_LOG_ENTRIES {
                total as int
            } else {
                MAX_LOG_ENTRIES as int
            }
            &&& (total <= MAX_LOG_ENTRIES ==> t == s + lines)
            &&& (total > MAX_LOG_ENTRIES ==> t == (s + lines).skip(total - MAX_LOG_ENTRIES))
        }),
    decreases lines.len(),
{
    if lines.len() == 0 {
        assert(s + lines =~= s);
    } else {
        let dl = lines.drop_last();
        let e = lines.last();
        lemma_log_window(s, dl);
        let u = append_all(s, dl);
        let t = append_all(s, lines);
        let tot0 = s.len() + dl.len();
        assert(t == log_append(u, e));
        assert(dl.push(e) =~= lines);
        if tot0 < MAX_LOG_ENTRIES {
            assert(u == s + dl);
            assert(t == u.push(e));
            assert(t =~= s + lines);
        } else if tot0 == MAX_LOG_ENTRIES {
            assert(u == s + dl);
            assert(t == u.push(e).drop_first());
            assert(t =~= (s + lines).skip(1));
        } else {
            assert(u == (s + dl).skip(tot0 - MAX_LOG_ENTRIES));
            assert(t == u.push(e).drop_first());
            assert(t =~= (s + lines).skip(
                s.len() + lines.len() - MAX_LOG_ENTRIES,
            ));
        }
    }
}

/// A scroll offset one line further down, saturating at the maximum.
pub open spec fn spec_scrolled_down(scroll: u16) -> u16 {
    if scroll < u16::MAX {
        (scroll + 1) as u16
    } else {
        u16::MAX
    }
}

/// A scroll offset one line further up, saturating at the top.
pub open spec fn spec_scrolled_up(scroll: u16) -> u16 {
    if scroll > 0 {
        (scroll - 1) as u16
    } else {
        0u16
    }
}

/// The offset that puts the newest entries in view, leaving one screenful.
pub open spec fn spec_bottom_scroll(len: int) -> u16 {
    if len > 20 {
        (len - 20) as u16
    } else {
        0u16
    }
}

/// A lowercase ASCII letter for its uppercase form, anything else kept.
pub open spec fn lower_char(c: char) -> char {
    if 'A' <= c && c <= 'Z' {
        (((c as u8) + 32) as char)
    } else {
        c
    }
}

/// `s` with ASCII uppercase letters lowered.
pub open spec fn ascii_lower(s: Seq<char>) -> Seq<char> {
    s.map_values(|c: char| lower_char(c))
}

/// Whether two character sequences are equal up to ASCII case.
pub open spec fn eq_ignore_case(a: Seq<char>, b: Seq<char>) -> bool {
    ascii_lower(a) == ascii_lower(b)
}

fn lower_char_exec(c: char) -> (r: char)
    ensures
        r == lower_char(c),
{
    if 'A' <= c && c <= 'Z' {
        ((c as u8) + 32) as char
    } else {
        c
    }
}

/// Whether two string slices are equal up to ASCII case.
pub fn str_eq_ignore_case(a: &str, b: &str) -> (r: bool)
    ensures
        r == eq_ignore_case(a@, b@),
{
    let na = a.unicode_len();
    let nb = b.unicode_len();
    if na != nb {
        proof {
            assert(ascii_lower(a@).len() != ascii_lower(b@).len());
        }
        return false;
    }
    let mut i: usize = 0;
    while i < na
        invariant
            na == a@.len(),
            na == b@.len(),
            i <= na,
            forall|j: int| 0 <= j < i ==> ascii_lower(a@)[j] == ascii_lower(b@)[j],
        decreases na - i,
    {
        let ca = a.get_char(i);
        let cb = b.get_char(i);
        if lower_char_exec(ca) != lower_char_exec(cb) {
            proof {
                assert(ascii_lower(a@)[i as int] != ascii_lower(b@)[i as int]);
            }
            return false;
        }
        i = i + 1;
    }
    proof {
        assert(ascii_lower(a@) =~= ascii_lower(b@));
    }
    true
}

/// Display rank of a log severity, deciding how the row is colored.
#[derive(Debug, Clone, Copy, PartialEq, Eq, Structural)]
pub enum LevelClass {
    Error,
    Warn,
    Info,
    Debug,
    Trace,
    Other,
}

/// The display rank named by a severity string, compared without regard to
/// ASCII case.
pub open spec fn spec_level_class(s: Seq<char>) -> LevelClass {
    if eq_ignore_case(s, "error"@) || eq_ignore_case(s, "err"@) {
        LevelClass::Error
    } else if eq_ignore_case(s, "warn"@) || eq_ignore_case(s, "warning"@) {
        LevelClass::Warn
    } else if eq_ignore_case(s, "info"@) {
        LevelClass::Info
    } else if eq_ignore_case(s, "debug"@) {
        LevelClass::Debug
    } else if eq_ignore_case(s, "trace"@) {
        LevelClass::Trace
    } else {
        LevelClass::Other
    }
}

/// Classify a severity string for display.
pub fn level_class(level: &str) -> (r: LevelClass)
    ensures
        r == spec_level_class(level@),
{
    if str_eq_ignore_case(level, "error") || str_eq_ignore_case(level, "err") {
        LevelClass::Error
    } else if str_eq_ignore_case(level, "warn") || str_eq_ignore_case(level, "warning") {
        LevelClass::Warn
    } else if str_eq_ignore_case(level, "info") {
        LevelClass::Info
    } else if str_eq_ignore_case(level, "debug") {
        LevelClass::Debug
    } else if str_eq_ignore_case(level, "trace") {
        LevelClass::Trace
    } else {
        LevelClass::Other
    }
}

/// Whether an entry passes the optional level and service filters.
pub open spec fn log_matches(e: LogEntry, level: Option<String>, service: Option<String>) -> bool {
    &&& match level {
        Some(l) => e.level@ == l@,
        None => true,
    }
    &&& match service {
        Some(s) => e.service@ == s@,
        None => true,
    }
}

/// The entries of `s` passing the filters, in order.
pub open spec fn filtered_logs(
    s: Seq<LogEntry>,
    level: Option<String>,
    service: Option<String>,
) -> Seq<LogEntry>
    decreases s.len(),
{
    if s.len() == 0 {
        Seq::empty()
    } else if log_matches(s[0], level, service) {
        seq![s[0]] + filtered_logs(s.drop_first(), level, service)
    } else {
        filtered_logs(s.drop_first(), level, service)
    }
}

/// One log entry as a display row: time of day, severity padded to five
/// characters, bracketed service, then the message.
pub open spec fn spec_log_line(e: LogEntry) -> Seq<char> {
    spec_timestamp(e.timestamp) + seq![' '] + spec_pad_right(e.level@, 5) + seq![' ', '[']
        + e.service@ + seq![']', ' '] + e.message@
}

/// Render one log entry as a display row.
pub fn log_line(e: &LogEntry) -> (r: String)
    ensures
        r@ == spec_log_line(*e),
{
    let mut s = format_timestamp(e.timestamp);
    push_char(&mut s, ' ');
    let lvl = pad_right(e.level.as_str(), 5);
    s.append(lvl.as_str());
    push_char(&mut s, ' ');
    push_char(&mut s, '[');
    s.append(e.service.as_str());
    push_char(&mut s, ']');
    push_char(&mut s, ' ');
    s.append(e.message.as_str());
    proof {
        assert(s@ =~= spec_log_line(*e));
    }
    s
}

/// Logs view state: bounded history, scroll position and filters.
#[derive(Debug)]
pub struct LogsView {
    pub entries: Vec<LogEntry>,
    /// Scroll offset into the (filtered) entries; clamped at render time.
    pub scroll: u16,
    /// When set, only entries with exactly this level are shown.
    pub filter_level: Option<String>,
    /// When set, only entries from exactly this service are shown.
    pub filter_service: Option<String>,
}

impl LogsView {
    /// An empty log view, scrolled to the top, with no filters.
    pub fn new() -> (r: Self)
        ensures
            r.entries@ == Seq::<LogEntry>::empty(),
            r.scroll == 0,
            r.filter_level is None,
            r.filter_service is None,
    {
        LogsView { entries: Vec::new(), scroll: 0, filter_level: None, filter_service: None }
    }

    /// Append one entry, evicting the oldest entry when the history would
    /// exceed its capacity.
    pub fn add_entry(&mut self, entry: LogEntry)
        ensures
            final(self).entries@ == log_append(old(self).entries@, entry),
            final(self).scroll == old(self).scroll,
            final(self).filter_level == old(self).filter_level,
            final(self).filter_service == old(self).filter_service,
    {
        self.entries.push(entry);
        if self.entries.len() > MAX_LOG_ENTRIES {
            let _ = self.entries.remove(0);
        }
    }

    /// Scroll one line down, saturating at the maximum offset.
    pub fn scroll_down(&mut self)
        ensures
            final(self).scroll == spec_scrolled_down(old(self).scroll),
            final(self).entries == old(self).entries,
            final(self).filter_level == old(self).filter_level,
            final(self).filter_service == old(self).filter_service,
    {
        if self.scroll < u16::MAX {
            self.scroll = self.scroll + 1;
        }
    }

    /// Scroll one line up, saturating at the top.
    pub fn scroll_up(&mut self)
        ensures
            final(self).scroll == spec_scrolled_up(old(self).scroll),
            final(self).entries == old(self).entries,
            final(self).filter_level == old(self).filter_level,
            final(self).filter_service == old(self).filter_service,
    {
        if self.scroll > 0 {
            self.scroll = self.scroll - 1;
        }
    }

    /// Scroll so the newest entries are in view, leaving one screenful.
    pub fn scroll_to_bottom(&mut self)
        ensures
            final(self).scroll == spec_bottom_scroll(old(self).entries@.len() as int),
            final(self).entries == old(self).entries,
            final(self).filter_level == old(self).filter_level,
            final(self).filter_service == old(self).filter_service,
    {
        let base: usize = if self.entries.len() > 20 {
            self.entries.len() - 20
        } else {
            0
        };
        self.scroll = #[verifier::truncate] (base as u16);
    }

    /// Drop the whole history and return to the top.
    pub fn clear(&mut self)
        ensures
            final(self).entries@ == Seq::<LogEntry>::empty(),
            final(self).scroll == 0,
            final(self).filter_level == old(self).filter_level,
            final(self).filter_service == old(self).filter_service,
    {
        self.entries.clear();
        self.scroll = 0;
    }

    /// The entries passing the current filters, in order.
    pub fn filtered_entries(&self) -> (r: Vec<LogEntry>)
        ensures
            r@ == filtered_logs(self.entries@, self.filter_level, self.filter_service),
    {
        let ghost s0 = self.entries@;
        let mut r: Vec<LogEntry> = Vec::new();
        let n = self.entries.len();
        let mut i: usize = 0;
        proof {
            assert(s0.skip(0) =~= s0);
            assert(filtered_logs(s0, self.filter_level, self.filter_service) =~= Seq::empty()
                + filtered_logs(s0.skip(0), self.filter_level, self.filter_service));
        }
        while i < n
            invariant
                n == s0.len(),
                self.entries@ == s0,
                i <= n,
                filtered_logs(s0, self.filter_level, self.filter_service) == r@ + filtered_logs(
                    s0.skip(i as int),
                    self.filter_level,
                    self.filter_service,
                ),
            decreases n - i,
        {
            let ghost rest = s0.skip(i as int);
            proof {
                assert(rest[0] == s0[i as int]);
                assert(rest.drop_first() =~= s0.skip(i as int + 1));
            }
            let e = &self.entries[i];
            let lvl_ok = match &self.filter_level {
                Some(l) => l.eq(&e.level),
                None => true,
            };
            let svc_ok = match &self.filter_service {
                Some(s) => s.eq(&e.service),
                None => true,
            };
            if lvl_ok && svc_ok {
                let ghost r0 = r@;
                r.push(duplicate_entry(e));
                proof {
                    assert(r@ + filtered_logs(
                        s0.skip(i as int + 1),
                        self.filter_level,
                        self.filter_service,
                    ) =~= r0 + (seq![s0[i as int]] + filtered_logs(
                        s0.skip(i as int + 1),
                        self.filter_level,
                        self.filter_service,
                    )));
                }
            }
            i = i + 1;
        }
        proof {
            assert(s0.skip(n as int) =~= Seq::<LogEntry>::empty());
            assert(filtered_logs(s0, self.filter_level, self.filter_service) =~= r@);
        }
        r
    }

    /// The scroll offset clamped to the given content length, as used when
    /// the view is projected.
    pub fn clamped_scroll(&self, content_len: usize) -> (r: usize)
        ensures
            r == if (self.scroll as int) < content_len {
                self.scroll as int
            } else {
                content_len as int
            },
    {
        if (self.scroll as usize) < content_len {
            self.scroll as usize
        } else {
            content_len
        }
    }

    /// The view's title line: the entry count and the scroll key hints.
    pub fn title(&self) -> (r: String)
        ensures
            r@ == "Logs ("@ + dec_digits(self.entries@.len() as int)
                + ") - j/k: scroll | G: bottom | c: clear"@,
    {
        let mut s = String::from_str("Logs (");
        let n = u64_string(self.entries.len() as u64);
        s.append(n.as_str());
        s.append(") - j/k: scroll | G: bottom | c: clear");
        proof {
            assert(s@ =~= "Logs ("@ + dec_digits(self.entries@.len() as int)
                + ") - j/k: scroll | G: bottom | c: clear"@);
        }
        s
    }
}

/// A field-for-field copy of a log entry.
pub fn duplicate_entry(e: &LogEntry) -> (r: LogEntry)
    ensures
        r == *e,
{
    LogEntry {
        timestamp: e.timestamp,
        level: e.level.clone(),
        service: e.service.clone(),
        message: e.message.clone(),
    }
}

} // verus!
