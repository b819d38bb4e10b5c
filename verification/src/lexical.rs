//! The lexical rules: blanks, runs of text with escapes, and quoted text.

use crate::error::outcome_of;
use crate::error::Failure;
use crate::error::Outcome;
use crate::error::SearchErrorKind;
use crate::error::SearchErrorKindView;
use vstd::prelude::*;
use vstd::slice::slice_subrange;

verus! {

/// Whether `c` separates the nodes of a query: a space or an ideographic
/// space.
pub open spec fn is_space(c: char) -> bool {
    c == ' ' || c == '\u{3000}'
}

/// The index of the first character of `s` from `pos` on that is no space.
pub open spec fn spaces_end(s: Seq<char>, pos: int) -> int
    decreases s.len() - pos,
{
    if 0 <= pos < s.len() && is_space(s[pos]) {
        spaces_end(s, pos + 1)
    } else {
        pos
    }
}

/// The characters that end a run of text.
#[derive(Debug, PartialEq, Eq, Clone, Copy)]
pub enum Delimiters {
    /// What ends the key before a quoted value: `"`, `(`, `)`, `:` and the
    /// spaces.
    Key,
    /// What ends an unquoted term: `"`, `(`, `)` and the spaces.
    Term,
    /// What ends quoted text: `"`.
    Quote,
    /// What ends the key within a term: `:`.
    Colon,
}

impl Delimiters {
    /// Whether a run ends before `c`, where no backslash escapes it.
    pub open spec fn ends_at(self, c: char) -> bool {
        match self {
            Delimiters::Key => c == '"' || c == '(' || c == ')' || c == ':' || is_space(c),
            Delimiters::Term => c == '"' || c == '(' || c == ')' || is_space(c),
            Delimiters::Quote => c == '"',
            Delimiters::Colon => c == ':',
        }
    }

    /// Whether a backslash can escape `c` in a run. Outside quotes it cannot
    /// escape a space.
    pub open spec fn escapes(self, c: char) -> bool {
        match self {
            Delimiters::Key | Delimiters::Term => !is_space(c),
            Delimiters::Quote | Delimiters::Colon => true,
        }
    }
}

/// How the longest run of text from a position ends. In a run, a backslash
/// and the character after it go together, and the run ends before the first
/// delimiter that no backslash escapes.
pub enum Run {
    /// The run ends before this index: at a delimiter, or at the end of the
    /// input.
    Ends(int),
    /// There is no run: the first character is a delimiter.
    Nothing,
    /// The input ends on a backslash that escapes nothing.
    Dangling,
    /// The character at this index follows a backslash that cannot escape
    /// it.
    Refused(int),
}

/// How a run that has reached `pos` ends.
pub open spec fn run_from(s: Seq<char>, pos: int, delimiters: Delimiters) -> Run
    decreases s.len() - pos,
{
    if pos < 0 || pos >= s.len() {
        Run::Ends(pos)
    } else if s[pos] == '\\' {
        if pos + 1 >= s.len() {
            Run::Dangling
        } else if delimiters.escapes(s[pos + 1]) {
            run_from(s, pos + 2, delimiters)
        } else {
            Run::Refused(pos + 1)
        }
    } else if delimiters.ends_at(s[pos]) {
        Run::Ends(pos)
    } else {
        run_from(s, pos + 1, delimiters)
    }
}

/// How the run that starts at `start` ends.
pub open spec fn run(s: Seq<char>, start: int, delimiters: Delimiters) -> Run {
    if 0 <= start < s.len() && delimiters.ends_at(s[start]) {
        Run::Nothing
    } else {
        run_from(s, start, delimiters)
    }
}

/// What quoted text at `pos` yields: the text between the `"` at `pos` and
/// the next `"` that no backslash escapes. It is not empty.
pub open spec fn quoted_text(s: Seq<char>, pos: int) -> Outcome<Seq<char>> {
    if 0 <= pos < s.len() && s[pos] == '"' {
        match run(s, pos + 1, Delimiters::Quote) {
            Run::Ends(end) => if end < s.len() {
                Outcome::Done { next: end + 1, value: s.subrange(pos + 1, end) }
            } else {
                Outcome::Abort { position: pos, kind: SearchErrorKindView::UnclosedQuote }
            },
            Run::Nothing => Outcome::Abort { position: pos, kind: SearchErrorKindView::EmptyQuote },
            _ => Outcome::Abort { position: pos, kind: SearchErrorKindView::UnclosedQuote },
        }
    } else {
        Outcome::Backtrack
    }
}

/// A run ends between where it has got to and the end of the input.
pub proof fn lemma_run_from_bounds(s: Seq<char>, pos: int, delimiters: Delimiters)
    requires
        0 <= pos <= s.len(),
    ensures
        run_from(s, pos, delimiters) matches Run::Ends(end) ==> pos <= end <= s.len() && (end
            < s.len() ==> delimiters.ends_at(s[end]) && s[end] != '\\'),
        run_from(s, pos, delimiters) matches Run::Refused(at) ==> pos < at < s.len(),
        !(run_from(s, pos, delimiters) is Nothing),
    decreases s.len() - pos,
{
    if pos >= s.len() {
    } else if s[pos] == '\\' {
        if pos + 1 < s.len() && delimiters.escapes(s[pos + 1]) {
            lemma_run_from_bounds(s, pos + 2, delimiters);
        }
    } else if !delimiters.ends_at(s[pos]) {
        lemma_run_from_bounds(s, pos + 1, delimiters);
    }
}

/// How a run of text was found to end.
#[derive(Debug, PartialEq, Eq, Clone, Copy)]
pub enum Scan {
    /// The run ends before this index.
    Ends(usize),
    /// There is no run: the first character is a delimiter.
    Nothing,
    /// The input ends on a backslash that escapes nothing.
    Dangling,
    /// The character at this index follows a backslash that cannot escape
    /// it.
    Refused(usize),
}

impl View for Scan {
    type V = Run;

    open spec fn view(&self) -> Run {
        match self {
            Scan::Ends(end) => Run::Ends(*end as int),
            Scan::Nothing => Run::Nothing,
            Scan::Dangling => Run::Dangling,
            Scan::Refused(at) => Run::Refused(*at as int),
        }
    }
}

/// Whether `c` is a space or an ideographic space.
pub fn space(c: char) -> (b: bool)
    ensures
        b == is_space(c),
{
    c == ' ' || c == '\u{3000}'
}

/// Skips the spaces from `pos` on.
pub fn whitespace0(input: &[char], pos: usize) -> (next: usize)
    requires
        pos <= input.len(),
    ensures
        next == spaces_end(input@, pos as int),
        pos <= next <= input.len(),
{
    let mut next: usize = pos;
    while next < input.len() && space(input[next])
        invariant
            pos <= next <= input.len(),
            spaces_end(input@, pos as int) == spaces_end(input@, next as int),
        decreases input.len() - next,
    {
        next += 1;
    }
    next
}

impl Delimiters {
    /// Whether a run ends before `c`.
    pub fn is_end(self, c: char) -> (b: bool)
        ensures
            b == self.ends_at(c),
    {
        match self {
            Delimiters::Key => c == '"' || c == '(' || c == ')' || c == ':' || space(c),
            Delimiters::Term => c == '"' || c == '(' || c == ')' || space(c),
            Delimiters::Quote => c == '"',
            Delimiters::Colon => c == ':',
        }
    }

    /// Whether a backslash can escape `c` in a run.
    pub fn can_escape(self, c: char) -> (b: bool)
        ensures
            b == self.escapes(c),
    {
        match self {
            Delimiters::Key | Delimiters::Term => !space(c),
            Delimiters::Quote | Delimiters::Colon => true,
        }
    }
}

/// Finds how the run of text that starts at `start` ends.
pub fn scan_run(input: &[char], start: usize, delimiters: Delimiters) -> (r: Scan)
    requires
        start <= input.len(),
    ensures
        r@ == run(input@, start as int, delimiters),
        r matches Scan::Ends(end) ==> start <= end <= input.len(),
        r matches Scan::Refused(at) ==> start < at < input.len(),
{
    if start < input.len() && delimiters.is_end(input[start]) {
        return Scan::Nothing;
    }
    let mut pos: usize = start;
    while pos < input.len()
        invariant
            start <= pos <= input.len(),
            run(input@, start as int, delimiters) == run_from(input@, pos as int, delimiters),
        decreases input.len() - pos,
    {
        let c = input[pos];
        if c == '\\' {
            if pos + 1 >= input.len() {
                return Scan::Dangling;
            } else if delimiters.can_escape(input[pos + 1]) {
                pos += 2;
            } else {
                return Scan::Refused(pos + 1);
            }
        } else if delimiters.is_end(c) {
            return Scan::Ends(pos);
        } else {
            pos += 1;
        }
    }
    Scan::Ends(pos)
}

/// Reads quoted text at `pos`: a `"`, text that is not empty, and the next
/// `"` that no backslash escapes. Yields the text between the two.
pub fn quoted_term_str<'a>(input: &'a [char], pos: usize) -> (r: Result<
    (usize, &'a [char]),
    Failure,
>)
    requires
        pos <= input.len(),
    ensures
        outcome_of(r) == quoted_text(input@, pos as int),
        r matches Ok((next, _)) ==> pos < next <= input.len(),
        r matches Err(Failure::Abort { position, .. }) ==> position == pos,
{
    if !(pos < input.len() && input[pos] == '"') {
        return Err(Failure::Backtrack);
    }
    match scan_run(input, pos + 1, Delimiters::Quote) {
        Scan::Ends(end) => {
            if end < input.len() {
                Ok((end + 1, slice_subrange(input, pos + 1, end)))
            } else {
                Err(Failure::Abort { position: pos, kind: SearchErrorKind::UnclosedQuote })
            }
        },
        Scan::Nothing => Err(Failure::Abort { position: pos, kind: SearchErrorKind::EmptyQuote }),
        _ => Err(Failure::Abort { position: pos, kind: SearchErrorKind::UnclosedQuote }),
    }
}

} // verus!
