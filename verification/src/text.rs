//! Text as sequences of characters: conversions from and to strings,
//! comparison without regard to case, and trimming.

use vstd::prelude::*;

verus! {

/// `String::push` appends one character to the end of the string.
pub assume_specification[ String::push ](s: &mut String, c: char)
    ensures
        final(s)@ == old(s)@.push(c),
;

/// Whether `c` has the Unicode property `White_Space`.
pub uninterp spec fn is_unicode_whitespace(c: char) -> bool;

/// `char::is_whitespace` tells whether the character has the Unicode
/// property `White_Space`. The contract only gives that answer its name.
pub assume_specification[ char::is_whitespace ](c: char) -> (b: bool)
    ensures
        b == is_unicode_whitespace(c),
;

/// The characters of `s`, in order.
pub fn chars_of(s: &str) -> (v: Vec<char>)
    ensures
        v@ == s@,
{
    let mut v: Vec<char> = Vec::new();
    let chars = s.chars();
    for c in it: chars
        invariant
            it.seq() == s@,
            v@ == it.seq().take(it.index()),
    {
        v.push(c);
    }
    v
}

/// The string made of the characters of `cs`, in order.
pub fn string_of(cs: &[char]) -> (s: String)
    ensures
        s@ == cs@,
{
    let mut s = String::new();
    let mut i: usize = 0;
    while i < cs.len()
        invariant
            i <= cs.len(),
            s@ == cs@.take(i as int),
        decreases cs.len() - i,
    {
        s.push(cs[i]);
        i += 1;
    }
    s
}

/// Appends the characters of `cs` to `out`.
pub fn push_chars(out: &mut String, cs: &[char])
    ensures
        final(out)@ == old(out)@ + cs@,
{
    let mut i: usize = 0;
    while i < cs.len()
        invariant
            i <= cs.len(),
            out@ == old(out)@ + cs@.take(i as int),
        decreases cs.len() - i,
    {
        out.push(cs[i]);
        i += 1;
    }
}

/// `c` with the letters `A` to `Z` turned into `a` to `z`.
pub open spec fn ascii_lower(c: char) -> char {
    if 'A' <= c && c <= 'Z' {
        (c as int + 32) as char
    } else {
        c
    }
}

/// Whether `a` and `b` are the same text but for the case of the letters `A`
/// to `Z` and `a` to `z`.
pub open spec fn eq_ignore_case(a: Seq<char>, b: Seq<char>) -> bool {
    &&& a.len() == b.len()
    &&& forall|i: int| 0 <= i < a.len() ==> ascii_lower(#[trigger] a[i]) == ascii_lower(b[i])
}

/// The index of the first `c` in `s`, or the length of `s` if there is none.
pub open spec fn index_of(s: Seq<char>, c: char) -> int
    decreases s.len(),
{
    if s.len() == 0 {
        0
    } else if s[0] == c {
        0
    } else {
        1 + index_of(s.skip(1), c)
    }
}

/// Turns a letter from `A` to `Z` into the one from `a` to `z`.
pub fn to_ascii_lower(c: char) -> (r: char)
    ensures
        r == ascii_lower(c),
{
    if 'A' <= c && c <= 'Z' {
        ((c as u8) + 32) as char
    } else {
        c
    }
}

/// Whether `s` is `word`, whatever the case of its ASCII letters.
pub fn is_word_ignore_case(s: &[char], word: &str) -> (b: bool)
    ensures
        b == eq_ignore_case(s@, word@),
{
    if s.len() != word.unicode_len() {
        return false;
    }
    let mut i: usize = 0;
    while i < s.len()
        invariant
            i <= s.len(),
            s@.len() == word@.len(),
            forall|k: int| 0 <= k < i ==> ascii_lower(#[trigger] s@[k]) == ascii_lower(word@[k]),
        decreases s.len() - i,
    {
        if to_ascii_lower(s[i]) != to_ascii_lower(word.get_char(i)) {
            return false;
        }
        i += 1;
    }
    true
}

/// Whether `s` begins with `word`.
pub fn starts_with(s: &[char], word: &str) -> (b: bool)
    ensures
        b == word@.is_prefix_of(s@),
{
    let n = word.unicode_len();
    if s.len() < n {
        return false;
    }
    let mut i: usize = 0;
    while i < n
        invariant
            i <= n,
            n == word@.len(),
            n <= s@.len(),
            forall|k: int| 0 <= k < i ==> #[trigger] s@[k] == word@[k],
        decreases n - i,
    {
        if s[i] != word.get_char(i) {
            return false;
        }
        i += 1;
    }
    proof {
        assert(s@.subrange(0, n as int) == word@);
    }
    true
}

/// Whether `s` is `word`.
pub fn is_word(s: &[char], word: &str) -> (b: bool)
    ensures
        b == (s@ == word@),
{
    if s.len() != word.unicode_len() {
        return false;
    }
    let b = starts_with(s, word);
    proof {
        if b {
            assert(s@ == s@.subrange(0, s@.len() as int));
        }
    }
    b
}

/// The index of the first `c` in `s`, or the length of `s` if there is none.
pub fn find_char(s: &[char], c: char) -> (i: usize)
    ensures
        i == index_of(s@, c),
        i <= s.len(),
        i < s.len() ==> s@[i as int] == c,
        forall|k: int| 0 <= k < i ==> s@[k] != c,
{
    let mut i: usize = 0;
    proof {
        assert(s@.skip(0) == s@);
    }
    while i < s.len() && s[i] != c
        invariant
            i <= s.len(),
            forall|k: int| 0 <= k < i ==> s@[k] != c,
            index_of(s@, c) == i + index_of(s@.skip(i as int), c),
        decreases s.len() - i,
    {
        proof {
            assert(s@.skip(i as int).skip(1) == s@.skip(i + 1));
        }
        i += 1;
    }
    i
}

/// The index of the first character of `s` from `i` on that is no
/// whitespace.
pub open spec fn blank_end(s: Seq<char>, i: int) -> int
    decreases s.len() - i,
{
    if 0 <= i < s.len() && is_unicode_whitespace(s[i]) {
        blank_end(s, i + 1)
    } else {
        i
    }
}

/// The index after the last character of `s` before `j` that is no
/// whitespace.
pub open spec fn content_end(s: Seq<char>, j: int) -> int
    decreases j,
{
    if 0 < j <= s.len() && is_unicode_whitespace(s[j - 1]) {
        content_end(s, j - 1)
    } else {
        j
    }
}

/// `s` without the whitespace at its two ends.
pub open spec fn trimmed(s: Seq<char>) -> Seq<char> {
    let start = blank_end(s, 0);
    let end = content_end(s, s.len() as int);
    if start < end {
        s.subrange(start, end)
    } else {
        Seq::empty()
    }
}

/// A text of whitespace only is empty once trimmed.
pub proof fn lemma_trimmed_blank(s: Seq<char>)
    requires
        forall|i: int| 0 <= i < s.len() ==> is_unicode_whitespace(#[trigger] s[i]),
    ensures
        trimmed(s) == Seq::<char>::empty(),
{
    lemma_blank_end_of_blank(s, 0);
    lemma_content_end_below(s, s.len() as int);
}

proof fn lemma_blank_end_of_blank(s: Seq<char>, i: int)
    requires
        0 <= i <= s.len(),
        forall|k: int| 0 <= k < s.len() ==> is_unicode_whitespace(#[trigger] s[k]),
    ensures
        blank_end(s, i) == s.len(),
    decreases s.len() - i,
{
    if i < s.len() {
        lemma_blank_end_of_blank(s, i + 1);
    }
}

/// The bounds of `s` without the whitespace at its two ends: the index of
/// its first character that is no whitespace, and the index after the last
/// one. Where `s` is whitespace only, both are its length.
pub fn trim(s: &[char]) -> (r: (usize, usize))
    ensures
        r.0 == blank_end(s@, 0),
        r.1 == (if blank_end(s@, 0) < content_end(s@, s@.len() as int) {
            content_end(s@, s@.len() as int)
        } else {
            blank_end(s@, 0)
        }),
        r.0 <= r.1 <= s.len(),
        s@.subrange(r.0 as int, r.1 as int) == trimmed(s@),
{
    let mut start: usize = 0;
    while start < s.len() && s[start].is_whitespace()
        invariant
            start <= s.len(),
            blank_end(s@, 0) == blank_end(s@, start as int),
        decreases s.len() - start,
    {
        start += 1;
    }
    let mut end: usize = s.len();
    while end > start && s[end - 1].is_whitespace()
        invariant
            start <= end <= s.len(),
            content_end(s@, s@.len() as int) == content_end(s@, end as int),
        decreases end,
    {
        end -= 1;
    }
    proof {
        if end == start {
            lemma_content_end_below(s@, end as int);
            assert(s@.subrange(start as int, end as int) == Seq::<char>::empty());
        }
    }
    (start, end)
}

proof fn lemma_content_end_below(s: Seq<char>, j: int)
    requires
        0 <= j <= s.len(),
    ensures
        content_end(s, j) <= j,
    decreases j,
{
    if 0 < j && is_unicode_whitespace(s[j - 1]) {
        lemma_content_end_below(s, j - 1);
    }
}

} // verus!
