//! Backslash escapes: which ones a text may hold, and what they resolve to.

use crate::error::result_view;
use crate::error::SearchErrorKind;
use crate::error::SearchErrorKindView;
use crate::text::chars_of;
use crate::text::string_of;
use vstd::prelude::*;

verus! {

/// Whether `c` has a meaning of its own in a query, which a backslash takes
/// away: one of `\`, `"`, `:`, `(`, `)` and `-`.
pub open spec fn is_parser_char(c: char) -> bool {
    c == '\\' || c == '"' || c == ':' || c == '(' || c == ')' || c == '-'
}

/// Whether `c` may follow a backslash: a character with a meaning in a query,
/// or one of the wildcards `*` and `_`.
pub open spec fn is_escapable(c: char) -> bool {
    is_parser_char(c) || c == '*' || c == '_'
}

/// The first escape of `s` from `i` on that is not allowed: the backslash and
/// the character after it, or the backslash alone at the end of `s`. A
/// backslash that follows an escaping backslash is escaped itself and opens
/// no escape.
pub open spec fn unknown_escape_from(s: Seq<char>, i: int) -> Option<Seq<char>>
    decreases s.len() - i,
{
    if i < 0 || i >= s.len() {
        None
    } else if s[i] != '\\' {
        unknown_escape_from(s, i + 1)
    } else if i + 1 >= s.len() {
        Some(seq!['\\'])
    } else if is_escapable(s[i + 1]) {
        unknown_escape_from(s, i + 2)
    } else {
        Some(seq!['\\', s[i + 1]])
    }
}

/// Whether `s` holds, from `i` on, a backslash that escapes a character with
/// a meaning in a query.
pub open spec fn parser_escape_from(s: Seq<char>, i: int) -> bool
    decreases s.len() - i,
{
    if i < 0 || i >= s.len() {
        false
    } else if s[i] != '\\' {
        parser_escape_from(s, i + 1)
    } else if i + 1 >= s.len() {
        false
    } else {
        is_parser_char(s[i + 1]) || parser_escape_from(s, i + 2)
    }
}

/// `s` from `i` on with its escapes resolved: a backslash before a character
/// with a meaning in a query is dropped, and the character stays. Any other
/// backslash stays, together with the character after it.
pub open spec fn resolved_from(s: Seq<char>, i: int) -> Seq<char>
    decreases s.len() - i,
{
    if i < 0 || i >= s.len() {
        Seq::empty()
    } else if s[i] == '\\' && i + 1 < s.len() {
        if is_parser_char(s[i + 1]) {
            seq![s[i + 1]] + resolved_from(s, i + 2)
        } else {
            seq![s[i], s[i + 1]] + resolved_from(s, i + 2)
        }
    } else {
        seq![s[i]] + resolved_from(s, i + 1)
    }
}

/// `s` with its escapes resolved, or the first escape of `s` that is not
/// allowed.
pub open spec fn unescaped(s: Seq<char>) -> Result<Seq<char>, SearchErrorKindView> {
    match unknown_escape_from(s, 0) {
        Some(sequence) => Err(SearchErrorKindView::UnknownEscape(sequence)),
        None => Ok(resolved_from(s, 0)),
    }
}

/// `s` from `i` on, with `by` in place of each `first` that `second` follows
/// directly. The pairs are found from left to right and do not overlap.
pub open spec fn pair_replaced_from(
    s: Seq<char>,
    i: int,
    first: char,
    second: char,
    by: char,
) -> Seq<char>
    decreases s.len() - i,
{
    if i < 0 || i >= s.len() {
        Seq::empty()
    } else if s[i] == first && i + 1 < s.len() && s[i + 1] == second {
        seq![by] + pair_replaced_from(s, i + 2, first, second, by)
    } else {
        seq![s[i]] + pair_replaced_from(s, i + 1, first, second, by)
    }
}

/// `s` with `"` in place of each `\"`.
pub open spec fn quotes_unescaped(s: Seq<char>) -> Seq<char> {
    pair_replaced_from(s, 0, '\\', '"', '"')
}

/// `s` with `"` in place of each `\"`, and then `\` in place of each `\\`.
pub open spec fn quotes_and_backslashes_unescaped(s: Seq<char>) -> Seq<char> {
    pair_replaced_from(quotes_unescaped(s), 0, '\\', '\\', '\\')
}

/// Where nothing is escaped that has a meaning in a query, resolving the
/// escapes changes nothing.
pub proof fn lemma_resolved_without_parser_escape(s: Seq<char>, i: int)
    requires
        0 <= i <= s.len(),
        !parser_escape_from(s, i),
    ensures
        resolved_from(s, i) == s.skip(i),
    decreases s.len() - i,
{
    if i >= s.len() {
    } else if s[i] == '\\' && i + 1 < s.len() {
        lemma_resolved_without_parser_escape(s, i + 2);
        assert(s.skip(i) == seq![s[i], s[i + 1]] + s.skip(i + 2));
    } else {
        if i + 1 <= s.len() {
            if s[i] != '\\' {
                lemma_resolved_without_parser_escape(s, i + 1);
            } else {
                assert(resolved_from(s, i + 1) == Seq::<char>::empty());
            }
        }
        assert(s.skip(i) == seq![s[i]] + s.skip(i + 1));
    }
}

/// A backslash before a character with a meaning in a query is dropped and
/// the character stays. Before a wildcard the backslash stays. Before any
/// other character it is refused.
pub proof fn lemma_unescaped_pair(c: char)
    ensures
        unescaped(seq!['\\', c]) == (if is_parser_char(c) {
            Ok::<Seq<char>, SearchErrorKindView>(seq![c])
        } else if c == '*' || c == '_' {
            Ok(seq!['\\', c])
        } else {
            Err(SearchErrorKindView::UnknownEscape(seq!['\\', c]))
        }),
{
    let s = seq!['\\', c];
    reveal_with_fuel(unknown_escape_from, 2);
    reveal_with_fuel(resolved_from, 2);
    assert(resolved_from(s, 2) == Seq::<char>::empty());
    if is_parser_char(c) {
        assert(seq![c] + Seq::<char>::empty() == seq![c]);
    } else {
        assert(seq!['\\', c] + Seq::<char>::empty() == seq!['\\', c]);
    }
}

/// Text without a backslash holds no escape, and resolving changes nothing.
pub proof fn lemma_unescaped_plain(s: Seq<char>)
    requires
        forall|i: int| 0 <= i < s.len() ==> s[i] != '\\',
    ensures
        unescaped(s) == Ok::<Seq<char>, SearchErrorKindView>(s),
{
    lemma_plain_from(s, 0);
    lemma_resolved_without_parser_escape(s, 0);
    assert(s.skip(0) == s);
}

proof fn lemma_plain_from(s: Seq<char>, i: int)
    requires
        0 <= i <= s.len(),
        forall|k: int| 0 <= k < s.len() ==> s[k] != '\\',
    ensures
        unknown_escape_from(s, i) is None,
        !parser_escape_from(s, i),
    decreases s.len() - i,
{
    if i < s.len() {
        lemma_plain_from(s, i + 1);
    }
}

/// Whether `c` has a meaning of its own in a query.
fn parser_char(c: char) -> (b: bool)
    ensures
        b == is_parser_char(c),
{
    c == '\\' || c == '"' || c == ':' || c == '(' || c == ')' || c == '-'
}

/// The first escape of `txt` that is not allowed, if there is one.
pub fn invalid_escape_sequence(txt: &[char]) -> (r: Option<String>)
    ensures
        match r {
            Some(sequence) => unknown_escape_from(txt@, 0) == Some(sequence@),
            None => unknown_escape_from(txt@, 0) is None,
        },
{
    let mut i: usize = 0;
    while i < txt.len()
        invariant
            i <= txt.len(),
            unknown_escape_from(txt@, 0) == unknown_escape_from(txt@, i as int),
        decreases txt.len() - i,
    {
        if txt[i] != '\\' {
            i += 1;
        } else if i + 1 >= txt.len() {
            let mut sequence = String::new();
            sequence.push('\\');
            proof {
                assert(sequence@ == seq!['\\']);
            }
            return Some(sequence);
        } else {
            let c = txt[i + 1];
            if parser_char(c) || c == '*' || c == '_' {
                i += 2;
            } else {
                let mut sequence = String::new();
                sequence.push('\\');
                sequence.push(c);
                proof {
                    assert(sequence@ == seq!['\\', c]);
                }
                return Some(sequence);
            }
        }
    }
    None
}

/// Whether `txt` holds a backslash that escapes a character with a meaning
/// in a query.
pub fn is_parser_escape(txt: &[char]) -> (b: bool)
    ensures
        b == parser_escape_from(txt@, 0),
{
    let mut i: usize = 0;
    while i < txt.len()
        invariant
            i <= txt.len(),
            parser_escape_from(txt@, 0) == parser_escape_from(txt@, i as int),
        decreases txt.len() - i,
    {
        if txt[i] != '\\' {
            i += 1;
        } else if i + 1 >= txt.len() {
            return false;
        } else if parser_char(txt[i + 1]) {
            return true;
        } else {
            i += 2;
        }
    }
    false
}

/// Resolves the escapes of `txt`, or names the first one that is not
/// allowed, in which case nothing is resolved.
pub fn unescape(txt: &[char]) -> (r: Result<String, SearchErrorKind>)
    ensures
        result_view(r) == unescaped(txt@),
{
    if let Some(sequence) = invalid_escape_sequence(txt) {
        return Err(SearchErrorKind::UnknownEscape(sequence));
    }
    if !is_parser_escape(txt) {
        proof {
            lemma_resolved_without_parser_escape(txt@, 0);
            assert(txt@.skip(0) == txt@);
        }
        return Ok(string_of(txt));
    }
    let mut out = String::new();
    let mut i: usize = 0;
    while i < txt.len()
        invariant
            i <= txt.len(),
            resolved_from(txt@, 0) == out@ + resolved_from(txt@, i as int),
        decreases txt.len() - i,
    {
        let ghost before = out@;
        if txt[i] == '\\' && i + 1 < txt.len() {
            let c = txt[i + 1];
            if !parser_char(c) {
                out.push('\\');
            }
            out.push(c);
            proof {
                let rest = resolved_from(txt@, i + 2);
                if is_parser_char(c) {
                    assert(before + (seq![c] + rest) == before.push(c) + rest);
                } else {
                    assert(before + (seq!['\\', c] + rest) == before.push('\\').push(c) + rest);
                }
            }
            i += 2;
        } else {
            out.push(txt[i]);
            proof {
                let rest = resolved_from(txt@, i + 1);
                let c = txt@[i as int];
                assert(before + (seq![c] + rest) == before.push(c) + rest);
            }
            i += 1;
        }
    }
    Ok(out)
}

/// `s` with `by` in place of each `first` that `second` follows directly.
fn replace_pair(s: &[char], first: char, second: char, by: char) -> (out: Vec<char>)
    ensures
        out@ == pair_replaced_from(s@, 0, first, second, by),
{
    let mut out: Vec<char> = Vec::new();
    let mut i: usize = 0;
    while i < s.len()
        invariant
            i <= s.len(),
            pair_replaced_from(s@, 0, first, second, by) == out@ + pair_replaced_from(
                s@,
                i as int,
                first,
                second,
                by,
            ),
        decreases s.len() - i,
    {
        let ghost before = out@;
        if s[i] == first && i + 1 < s.len() && s[i + 1] == second {
            out.push(by);
            proof {
                let rest = pair_replaced_from(s@, i + 2, first, second, by);
                assert(before + (seq![by] + rest) == before.push(by) + rest);
            }
            i += 2;
        } else {
            out.push(s[i]);
            proof {
                let rest = pair_replaced_from(s@, i + 1, first, second, by);
                assert(before + (seq![s@[i as int]] + rest) == before.push(s@[i as int]) + rest);
            }
            i += 1;
        }
    }
    out
}

/// Turns each `\"` of `s` into `"` and leaves every other backslash as it
/// is. This is for the body of a regular expression.
pub fn unescape_quotes_in(s: &[char]) -> (out: String)
    ensures
        out@ == quotes_unescaped(s@),
{
    let replaced = replace_pair(s, '\\', '"', '"');
    string_of(replaced.as_slice())
}

/// Turns each `\"` of `s` into `"`, and then each `\\` into `\`. This is for
/// text that is compared as it stands.
pub fn unescape_quotes_and_backslashes_in(s: &[char]) -> (out: String)
    ensures
        out@ == quotes_and_backslashes_unescaped(s@),
{
    let quotes = replace_pair(s, '\\', '"', '"');
    let replaced = replace_pair(quotes.as_slice(), '\\', '\\', '\\');
    string_of(replaced.as_slice())
}

/// Turns each `\"` of `s` into `"` and leaves every other backslash as it
/// is.
pub fn unescape_quotes(s: &str) -> (out: String)
    ensures
        out@ == quotes_unescaped(s@),
{
    let chars = chars_of(s);
    unescape_quotes_in(chars.as_slice())
}

/// Turns each `\"` of `s` into `"`, and then each `\\` into `\`.
pub fn unescape_quotes_and_backslashes(s: &str) -> (out: String)
    ensures
        out@ == quotes_and_backslashes_unescaped(s@),
{
    let chars = chars_of(s);
    unescape_quotes_and_backslashes_in(chars.as_slice())
}

} // verus!
