use vstd::prelude::*;
use crate::text::{
    closes_brace, ends_with, is_prefix, is_suffix, opens_brace, slice_chars, starts_with, trim,
    trim_of,
};

verus! {

/// Clear the screen, then move the cursor home: the producer's redraw signal.
pub open spec fn clear_home_seq() -> Seq<char> {
    seq!['\u{1b}', '[', 'J', '\u{1b}', '[', 'H']
}

/// Move the cursor home.
pub open spec fn home_seq() -> Seq<char> {
    seq!['\u{1b}', '[', 'H']
}

/// Erase to the end of the line.
pub open spec fn erase_seq() -> Seq<char> {
    seq!['\u{1b}', '[', 'K']
}

/// `s` without its leading `p`, when it has one.
pub open spec fn strip_front(s: Seq<char>, p: Seq<char>) -> Seq<char> {
    if is_prefix(p, s) {
        s.skip(p.len() as int)
    } else {
        s
    }
}

/// A line that opens with `{` and closes with `}`: worth handing to a record parser.
pub open spec fn is_record(s: Seq<char>) -> bool {
    s.len() > 0 && s[0] == '{' && s[s.len() - 1] == '}'
}

/// The line once the control sequences are gone, or `None` where nothing of
/// it is left to assemble: a bare redraw or cursor-home signal, or a blank line.
pub open spec fn cleaned(line: Seq<char>) -> Option<Seq<char>> {
    let a = strip_front(line, clear_home_seq());
    let b = strip_front(a, home_seq());
    let c = if is_suffix(erase_seq(), b) {
        trim_of(b.take(b.len() - erase_seq().len()))
    } else {
        b
    };
    if is_prefix(clear_home_seq(), line) && a.len() == 0 {
        None
    } else if is_prefix(home_seq(), a) && b.len() == 0 {
        None
    } else if c.len() == 0 || trim_of(c).len() == 0 {
        None
    } else {
        Some(c)
    }
}

/// Fragment assembly: from the pending fragment and a cleaned line, the new
/// pending fragment and the candidate record, if any.
/// A line that opens a record without closing it becomes the new fragment.
/// Any other line is joined to what was pending (possibly nothing), and the
/// joined text is a candidate only if it opens with `{` and closes with `}`.
pub open spec fn assemble_spec(pending: Seq<char>, line: Seq<char>) -> (Seq<char>, Option<Seq<char>>) {
    let opens = line.len() > 0 && line[0] == '{';
    let closes = line.len() > 0 && line[line.len() - 1] == '}';
    if opens && !closes {
        (line, None)
    } else {
        let joined = pending + line;
        (Seq::empty(), if is_record(joined) { Some(joined) } else { None })
    }
}

/// What the cleaner may hold between lines: nothing, or the opening of a record.
pub open spec fn fragment_ok(p: Seq<char>) -> bool {
    p.len() == 0 || p[0] == '{'
}

/// An optional string, seen as characters.
pub open spec fn opt_chars(o: Option<String>) -> Option<Seq<char>> {
    match o {
        Some(s) => Some(s@),
        None => None,
    }
}

fn clear_home() -> (r: &'static str)
    ensures
        r@ == clear_home_seq(),
{
    let r = "\u{1b}[J\u{1b}[H";
    proof {
        reveal_strlit("\u{1b}[J\u{1b}[H");
    }
    assert(r@ =~= clear_home_seq());
    r
}

fn home() -> (r: &'static str)
    ensures
        r@ == home_seq(),
{
    let r = "\u{1b}[H";
    proof {
        reveal_strlit("\u{1b}[H");
    }
    assert(r@ =~= home_seq());
    r
}

fn erase() -> (r: &'static str)
    ensures
        r@ == erase_seq(),
{
    let r = "\u{1b}[K";
    proof {
        reveal_strlit("\u{1b}[K");
    }
    assert(r@ =~= erase_seq());
    r
}

/// Recovers whole records from the producer's output, one raw line at a time.
pub struct EscapeSequenceCleaner {
    partial_line: String,
}

impl EscapeSequenceCleaner {
    /// The start of a record still waiting for its end; empty when none is.
    pub closed spec fn pending(&self) -> Seq<char> {
        self.partial_line@
    }

    pub fn new() -> (r: Self)
        ensures
            r.pending() == Seq::<char>::empty(),
            fragment_ok(r.pending()),
    {
        EscapeSequenceCleaner { partial_line: String::new() }
    }

    /// Whether the unmodified line opens with the redraw signal.
    pub fn is_screen_clear_event(line: &str) -> (r: bool)
        ensures
            r == is_prefix(clear_home_seq(), line@),
    {
        starts_with(line, clear_home())
    }

    /// Joins a cleaned line to the pending fragment; yields a candidate record
    /// when the text so far opens with `{` and closes with `}`.
    pub fn assemble(&mut self, line: String) -> (r: Option<String>)
        ensures
            (final(self).pending(), opt_chars(r)) == assemble_spec(old(self).pending(), line@),
            r matches Some(c) ==> is_record(c@),
            fragment_ok(final(self).pending()),
    {
        let mut line = line;
        let opens = opens_brace(line.as_str());
        let closes = closes_brace(line.as_str());
        if !opens && self.partial_line.unicode_len() > 0 {
            self.partial_line.append(line.as_str());
            line = self.partial_line.clone();
            self.partial_line = String::new();
        } else if opens && !closes {
            self.partial_line = line;
            return None;
        } else if self.partial_line.unicode_len() > 0 {
            self.partial_line.append(line.as_str());
            line = self.partial_line.clone();
            self.partial_line = String::new();
        } else {
            assert(old(self).partial_line@ + line@ =~= line@);
        }
        if !opens_brace(line.as_str()) || !closes_brace(line.as_str()) {
            return None;
        }
        Some(line)
    }

    /// Processes one raw line: strips the control sequences, skips what is
    /// blank, and assembles the rest into candidate records.
    pub fn process_line(&mut self, line: String) -> (r: Option<String>)
        ensures
            match cleaned(line@) {
                None => r is None && final(self).pending() == old(self).pending(),
                Some(c) => (final(self).pending(), opt_chars(r)) == assemble_spec(
                    old(self).pending(),
                    c,
                ),
            },
            r matches Some(c) ==> is_record(c@),
            fragment_ok(old(self).pending()) ==> fragment_ok(final(self).pending()),
    {
        let mut line = line;
        if starts_with(line.as_str(), clear_home()) {
            let n = line.unicode_len();
            line = slice_chars(line.as_str(), 6, n);
            if line.unicode_len() == 0 {
                return None;
            }
        }
        if starts_with(line.as_str(), home()) {
            let n = line.unicode_len();
            line = slice_chars(line.as_str(), 3, n);
            if line.unicode_len() == 0 {
                return None;
            }
        }
        if ends_with(line.as_str(), erase()) {
            let n = line.unicode_len();
            let kept = slice_chars(line.as_str(), 0, n - 3);
            line = trim(kept.as_str());
        }
        if line.unicode_len() == 0 {
            return None;
        }
        let blank = trim(line.as_str());
        if blank.unicode_len() == 0 {
            return None;
        }
        self.assemble(line)
    }
}

} // verus!
