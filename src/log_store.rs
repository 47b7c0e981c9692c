//! A bounded log of timestamped lines.
use vstd::prelude::*;
use vstd::string::*;

use crate::text::concat_str;

verus! {

/// The most lines the log keeps; older lines are dropped first.
pub const MAX_LOG_LINES: usize = 1000;

/// True when `l` holds no line break.
pub open spec fn is_single_line(l: Seq<char>) -> bool {
    forall|j: int| 0 <= j < l.len() ==> l[j] != '\n'
}

/// The lines of `s`, cut at each `'\n'`: `k` breaks give `k + 1` pieces.
pub open spec fn split_lines(s: Seq<char>) -> Seq<Seq<char>>
    decreases s.len(),
{
    if s.len() == 0 {
        seq![Seq::<char>::empty()]
    } else {
        let prev = split_lines(s.drop_last());
        if s.last() == '\n' {
            prev.push(Seq::<char>::empty())
        } else {
            prev.update(prev.len() - 1, prev.last().push(s.last()))
        }
    }
}

/// The most recent `MAX_LOG_LINES` lines of `s`, in order.
pub open spec fn window(s: Seq<Seq<char>>) -> Seq<Seq<char>> {
    if s.len() > MAX_LOG_LINES {
        s.subrange(s.len() - MAX_LOG_LINES, s.len() as int)
    } else {
        s
    }
}

/// Each line followed by a line break.
pub open spec fn joined(lines: Seq<Seq<char>>) -> Seq<char>
    decreases lines.len(),
{
    if lines.len() == 0 {
        Seq::<char>::empty()
    } else {
        joined(lines.drop_last()) + lines.last() + seq!['\n']
    }
}

/// The text of one entry: `[<timestamp>] <message>`.
pub open spec fn entry_text(timestamp: Seq<char>, message: Seq<char>) -> Seq<char> {
    seq!['['] + timestamp + seq![']', ' '] + message
}

/// The lines kept after one entry is written.
pub open spec fn after_entry(lines: Seq<Seq<char>>, entry: Seq<char>) -> Seq<Seq<char>> {
    window(lines + split_lines(entry))
}

/// `after` is `before` with `line` written under some single-line timestamp.
pub open spec fn logged_line(before: Seq<Seq<char>>, after: Seq<Seq<char>>, line: Seq<char>) -> bool {
    exists|t: Seq<char>| is_single_line(t) && after == after_entry(before, entry_text(t, line))
}

pub open spec fn string_views(v: Seq<String>) -> Seq<Seq<char>> {
    v.map_values(|l: String| l@)
}

proof fn lemma_split_lines_single(s: Seq<char>)
    ensures
        split_lines(s).len() >= 1,
        forall|i: int| 0 <= i < split_lines(s).len() ==> is_single_line(#[trigger] split_lines(s)[i]),
    decreases s.len(),
{
    if s.len() > 0 {
        lemma_split_lines_single(s.drop_last());
    }
}

/// The window of a window with more lines appended is the window of the whole.
pub proof fn lemma_window_absorbs(a: Seq<Seq<char>>, b: Seq<Seq<char>>)
    ensures
        window(window(a) + b) == window(a + b),
{
    if a.len() > MAX_LOG_LINES {
        let w = window(a);
        if (w + b).len() > MAX_LOG_LINES {
            assert(window(w + b) =~= window(a + b));
        } else {
            assert(b.len() == 0);
            assert(w + b =~= w);
            assert(a + b =~= a);
        }
    }
}

proof fn lemma_split_extend(a: Seq<char>, l: Seq<char>)
    requires
        is_single_line(l),
    ensures
        split_lines(a + l) == split_lines(a).update(
            split_lines(a).len() - 1,
            split_lines(a).last() + l,
        ),
    decreases l.len(),
{
    lemma_split_lines_single(a);
    let sa = split_lines(a);
    if l.len() > 0 {
        lemma_split_extend(a, l.drop_last());
        assert((a + l).drop_last() =~= a + l.drop_last());
        assert((a + l).last() == l.last());
        assert((sa.last() + l.drop_last()).push(l.last()) =~= sa.last() + l);
        let prev = split_lines(a + l.drop_last());
        assert(prev.update(prev.len() - 1, prev.last().push(l.last())) =~= sa.update(
            sa.len() - 1,
            sa.last() + l,
        ));
    } else {
        assert(a + l =~= a);
        assert(sa.last() + l =~= sa.last());
        assert(sa.update(sa.len() - 1, sa.last() + l) =~= sa);
    }
}

/// The text of single-line lines, cut at its line breaks, gives back those
/// lines, followed by the empty rest after the final break: the text has
/// exactly as many lines as the log.
pub proof fn lemma_text_has_the_lines(lines: Seq<Seq<char>>)
    requires
        forall|i: int| 0 <= i < lines.len() ==> is_single_line(#[trigger] lines[i]),
    ensures
        split_lines(joined(lines)) == lines.push(Seq::<char>::empty()),
    decreases lines.len(),
{
    if lines.len() == 0 {
        assert(split_lines(joined(lines)) =~= lines.push(Seq::<char>::empty()));
    } else {
        let p = lines.drop_last();
        let l = lines.last();
        assert(forall|i: int| 0 <= i < p.len() ==> p[i] == lines[i]);
        lemma_text_has_the_lines(p);
        assert(is_single_line(lines[lines.len() - 1]));
        lemma_split_extend(joined(p), l);
        let s = joined(p) + l;
        assert(split_lines(s) =~= p.push(l)) by {
            assert(Seq::<char>::empty() + l =~= l);
        };
        assert(joined(lines) =~= s.push('\n'));
        assert(s.push('\n').drop_last() =~= s);
        assert(split_lines(joined(lines)) =~= lines.push(Seq::<char>::empty())) by {
            assert(p.push(l) =~= lines);
        };
    }
}

proof fn lemma_split_single(s: Seq<char>)
    requires
        is_single_line(s),
    ensures
        split_lines(s) == seq![s],
    decreases s.len(),
{
    if s.len() > 0 {
        let p = s.drop_last();
        assert(is_single_line(p)) by {
            assert(forall|j: int| 0 <= j < p.len() ==> p[j] == s[j]);
        };
        lemma_split_single(p);
        assert(s.last() == s[s.len() - 1]);
        assert(p.push(s.last()) =~= s);
        assert(seq![p].update(0, p.push(s.last())) =~= seq![s]);
    } else {
        assert(s =~= Seq::<char>::empty());
    }
}

/// An entry whose timestamp and message are single lines adds exactly one
/// line: the entry itself, after which only the oldest lines beyond
/// `MAX_LOG_LINES` are dropped.
pub proof fn lemma_single_line_entry(lines: Seq<Seq<char>>, ts: Seq<char>, message: Seq<char>)
    requires
        is_single_line(ts),
        is_single_line(message),
    ensures
        is_single_line(entry_text(ts, message)),
        after_entry(lines, entry_text(ts, message)) == window(lines.push(entry_text(ts, message))),
{
    let e = entry_text(ts, message);
    assert forall|j: int| 0 <= j < e.len() implies e[j] != '\n' by {
        if j >= 1 + ts.len() + 2 {
            assert(e[j] == message[j - (1 + ts.len() + 2)]);
        } else if j >= 1 && j < 1 + ts.len() {
            assert(e[j] == ts[j - 1]);
        }
    };
    lemma_split_single(e);
    assert(lines + seq![e] =~= lines.push(e));
}

/// A log of timestamped entries, kept as at most `MAX_LOG_LINES` lines.
pub struct LogStore {
    lines: Vec<String>,
}

impl View for LogStore {
    type V = Seq<Seq<char>>;

    closed spec fn view(&self) -> Seq<Seq<char>> {
        string_views(self.lines@)
    }
}

/// Relies on chrono's `From<SystemTime> for DateTime<Utc>`, which also takes
/// clocks set before 1970, and on `DateTime::format` with a pattern of
/// numeric fields, `-`, `:`, spaces and `UTC`: the current UTC time, to the
/// second, on one line.
#[verifier::external_body]
fn utc_timestamp() -> (r: String)
    ensures
        is_single_line(r@),
{
    let now = chrono::DateTime::<chrono::Utc>::from(std::time::SystemTime::now());
    now.format("%Y-%m-%d %H:%M:%S UTC").to_string()
}

/// Cuts `s` at each line break.
fn split_at_breaks(s: &str) -> (r: Vec<String>)
    ensures
        string_views(r@) == split_lines(s@),
{
    let n = s.unicode_len();
    let mut out: Vec<String> = Vec::new();
    let mut start: usize = 0;
    let mut i: usize = 0;
    assert(string_views(out@) =~= Seq::<Seq<char>>::empty());
    assert(s@.subrange(0, 0) =~= Seq::<char>::empty());
    assert(string_views(out@).push(s@.subrange(0, 0)) =~= split_lines(s@.subrange(0, 0)));
    while i < n
        invariant
            n == s@.len(),
            start <= i <= n,
            string_views(out@).push(s@.subrange(start as int, i as int)) == split_lines(
                s@.subrange(0, i as int),
            ),
        decreases n - i,
    {
        let c = s.get_char(i);
        let ghost pre = s@.subrange(0, i as int);
        let ghost next = s@.subrange(0, i + 1);
        let ghost views_before = string_views(out@);
        assert(next.drop_last() =~= pre);
        assert(next.last() == c);
        if c == '\n' {
            let piece = String::from_str(s.substring_char(start, i));
            out.push(piece);
            assert(string_views(out@) =~= views_before.push(piece@));
            start = i + 1;
            assert(s@.subrange(start as int, i + 1) =~= Seq::<char>::empty());
        } else {
            assert(s@.subrange(start as int, i + 1) =~= s@.subrange(start as int, i as int).push(c));
            assert(string_views(out@).push(s@.subrange(start as int, i + 1)) =~= split_lines(next));
        }
        i += 1;
    }
    let last = String::from_str(s.substring_char(start, n));
    out.push(last);
    assert(s@.subrange(0, n as int) =~= s@);
    assert(string_views(out@) =~= string_views(out@.drop_last()).push(last@));
    out
}

/// The lines kept after `entries` are written one after another.
pub open spec fn after_entries(lines: Seq<Seq<char>>, entries: Seq<Seq<char>>) -> Seq<Seq<char>>
    decreases entries.len(),
{
    if entries.len() == 0 {
        lines
    } else {
        after_entry(after_entries(lines, entries.drop_last()), entries.last())
    }
}

/// Every line ever written: `lines`, then the lines of each entry in turn.
pub open spec fn all_lines(lines: Seq<Seq<char>>, entries: Seq<Seq<char>>) -> Seq<Seq<char>>
    decreases entries.len(),
{
    if entries.len() == 0 {
        lines
    } else {
        all_lines(lines, entries.drop_last()) + split_lines(entries.last())
    }
}

/// Whatever entries are written, the log holds at most `MAX_LOG_LINES` lines,
/// and they are exactly the most recent lines written, in the order written.
pub proof fn lemma_log_keeps_recent_lines(lines: Seq<Seq<char>>, entries: Seq<Seq<char>>)
    requires
        lines.len() <= MAX_LOG_LINES,
    ensures
        after_entries(lines, entries) == window(all_lines(lines, entries)),
        after_entries(lines, entries).len() <= MAX_LOG_LINES,
    decreases entries.len(),
{
    if entries.len() > 0 {
        lemma_log_keeps_recent_lines(lines, entries.drop_last());
        lemma_window_absorbs(all_lines(lines, entries.drop_last()), split_lines(entries.last()));
    }
}

impl LogStore {
    /// The log's invariant: few enough lines, none holding a line break.
    pub closed spec fn wf(&self) -> bool {
        &&& self@.len() <= MAX_LOG_LINES
        &&& forall|i: int| 0 <= i < self@.len() ==> is_single_line(#[trigger] self@[i])
    }

    /// The text of a log, cut at its line breaks, is its lines and the empty
    /// rest after the final break: never more than `MAX_LOG_LINES` lines.
    pub proof fn lemma_text_lines(&self)
        requires
            self.wf(),
        ensures
            split_lines(joined(self@)) == self@.push(Seq::<char>::empty()),
            self@.len() <= MAX_LOG_LINES,
    {
        lemma_text_has_the_lines(self@);
    }

    /// An empty log.
    pub fn new() -> (r: LogStore)
        ensures
            r.wf(),
            r@ == Seq::<Seq<char>>::empty(),
    {
        let r = LogStore { lines: Vec::new() };
        assert(r@ =~= Seq::<Seq<char>>::empty());
        r
    }

    /// How many lines the log holds.
    pub fn line_count(&self) -> (r: usize)
        ensures
            r == self@.len(),
    {
        self.lines.len()
    }

    /// Writes the entry `[<timestamp>] <message>`: its lines are added at the end,
    /// then the oldest lines are dropped until at most `MAX_LOG_LINES` remain.
    pub fn append_entry(&mut self, timestamp: &str, message: &str)
        requires
            old(self).wf(),
        ensures
            final(self).wf(),
            final(self)@ == after_entry(old(self)@, entry_text(timestamp@, message@)),
    {
        let mut entry = concat_str("[", timestamp);
        entry.append("] ");
        entry.append(message);
        proof {
            reveal_strlit("[");
            reveal_strlit("] ");
            assert(entry@ =~= entry_text(timestamp@, message@));
        }
        let mut pieces = split_at_breaks(entry.as_str());
        proof {
            lemma_split_lines_single(entry@);
        }
        let ghost before = self@;
        let ghost added = split_lines(entry@);
        self.lines.append(&mut pieces);
        assert(self@ =~= before + added);
        let len = self.lines.len();
        if len > MAX_LOG_LINES {
            let kept = self.lines.split_off(len - MAX_LOG_LINES);
            self.lines = kept;
            assert(self@ =~= window(before + added));
        }
        assert(forall|i: int| 0 <= i < self@.len() ==> is_single_line(#[trigger] self@[i]));
    }

    /// Writes `message` under the current UTC time.
    pub fn add_log_entry(&mut self, message: &str)
        requires
            old(self).wf(),
        ensures
            final(self).wf(),
            logged_line(old(self)@, final(self)@, message@),
            is_single_line(message@) ==> exists|ts: Seq<char>|
                is_single_line(ts) && final(self)@ == window(
                    old(self)@.push(entry_text(ts, message@)),
                ),
    {
        let ts = utc_timestamp();
        self.append_entry(ts.as_str(), message);
        proof {
            if is_single_line(message@) {
                lemma_single_line_entry(old(self)@, ts@, message@);
            }
        }
    }

    /// The whole log: each line followed by a line break.
    pub fn text(&self) -> (r: String)
        ensures
            r@ == joined(self@),
    {
        let mut out = String::new();
        let mut i: usize = 0;
        proof {
            reveal_strlit("\n");
            assert(self@.subrange(0, 0) =~= Seq::<Seq<char>>::empty());
        }
        while i < self.lines.len()
            invariant
                i <= self.lines.len(),
                out@ == joined(self@.subrange(0, i as int)),
            decreases self.lines.len() - i,
        {
            let ghost prev = out@;
            out.append(self.lines[i].as_str());
            out.append("\n");
            proof {
                reveal_strlit("\n");
                let sub = self@.subrange(0, i + 1);
                assert(sub.drop_last() =~= self@.subrange(0, i as int));
                assert(sub.last() == self.lines@[i as int]@);
                assert(out@ =~= prev + sub.last() + seq!['\n']);
            }
            i += 1;
        }
        assert(self@.subrange(0, i as int) =~= self@);
        out
    }

    /// Empties the log.
    pub fn clear(&mut self)
        ensures
            final(self).wf(),
            final(self)@ == Seq::<Seq<char>>::empty(),
    {
        self.lines.clear();
        assert(self@ =~= Seq::<Seq<char>>::empty());
    }
}

} // verus!
