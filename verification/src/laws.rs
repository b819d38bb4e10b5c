//! What holds of every query: the nodes of a parsed query alternate, every
//! rule takes at least one character, and parsing is a function of the query.

use crate::ast::alternates;
use crate::ast::Node;
use crate::ast::NodeView;
use crate::ast::SearchNodeView;
use crate::error::Outcome;
use crate::error::SearchErrorKind;
use crate::error::SearchErrorKindView;
use crate::escape::resolved_from;
use crate::escape::unescaped;
use crate::escape::unknown_escape_from;
use crate::grammar::appended;
use crate::grammar::group_at;
use crate::grammar::group_inner_at;
use crate::grammar::group_rest;
use crate::grammar::is_blank;
use crate::grammar::negated_node_at;
use crate::grammar::node_at;
use crate::grammar::parse_view;
use crate::grammar::partially_quoted_term_at;
use crate::grammar::query;
use crate::grammar::query_of_chars;
use crate::grammar::quoted_term_at;
use crate::grammar::text_at;
use crate::grammar::unquoted_term_at;
use crate::lexical::is_space;
use crate::lexical::lemma_run_from_bounds;
use crate::lexical::quoted_text;
use crate::lexical::run;
use crate::lexical::run_from;
use crate::lexical::spaces_end;
use crate::lexical::Delimiters;
use crate::lexical::Run;
use crate::predicate::argument_node;
use crate::predicate::text_node;
use crate::text::ascii_lower;
use crate::text::eq_ignore_case;
use crate::text::lemma_trimmed_blank;
use crate::text::trimmed;
use vstd::prelude::*;

verus! {

/// Whether operands and operators alternate in `nodes` as far as they go:
/// there is an operand at 0, 2, 4 and so on, and an operator at 1, 3, 5 and
/// so on.
pub open spec fn alternates_so_far(nodes: Seq<NodeView>) -> bool {
    forall|i: int|
        0 <= i < nodes.len() ==> if i % 2 == 0 {
            (#[trigger] nodes[i]).is_operand()
        } else {
            nodes[i].is_operator()
        }
}

/// The spaces from `pos` on end between `pos` and the end of the input.
pub proof fn lemma_spaces_end_bounds(s: Seq<char>, pos: int)
    requires
        0 <= pos <= s.len(),
    ensures
        pos <= spaces_end(s, pos) <= s.len(),
        spaces_end(s, pos) < s.len() ==> !is_space(s[spaces_end(s, pos)]),
    decreases s.len() - pos,
{
    if pos < s.len() && is_space(s[pos]) {
        lemma_spaces_end_bounds(s, pos + 1);
    }
}

/// A run that starts where no delimiter stands takes at least one
/// character.
proof fn lemma_run_advances(s: Seq<char>, pos: int, delimiters: Delimiters)
    requires
        0 <= pos <= s.len(),
    ensures
        run(s, pos, delimiters) matches Run::Ends(end) ==> pos <= end <= s.len() && (end == pos
            ==> pos == s.len()) && (end < s.len() ==> delimiters.ends_at(s[end])),
        run(s, pos, delimiters) is Nothing <==> pos < s.len() && delimiters.ends_at(s[pos]),
{
    lemma_run_from_bounds(s, pos, delimiters);
    if pos < s.len() {
        lemma_run_from_bounds(s, pos + 1, delimiters);
    }
    if pos + 1 < s.len() {
        lemma_run_from_bounds(s, pos + 2, delimiters);
    }
}

/// Quoted text takes at least its two quotes, and begins at every `"`.
proof fn lemma_quoted_text(s: Seq<char>, pos: int)
    requires
        0 <= pos <= s.len(),
    ensures
        quoted_text(s, pos) matches Outcome::Done { next, value } ==> pos < next <= s.len(),
        quoted_text(s, pos) is Backtrack <==> !(pos < s.len() && s[pos] == '"'),
{
    if pos < s.len() {
        lemma_run_advances(s, pos + 1, Delimiters::Quote);
    }
}

/// An unquoted term takes at least one character, and is an operator or a
/// criterion.
proof fn lemma_unquoted_term_at(s: Seq<char>, pos: int)
    requires
        0 <= pos <= s.len(),
    ensures
        unquoted_term_at(s, pos) matches Outcome::Done { next, value } ==> pos < next <= s.len()
            && (value.is_operator() || value is Search),
        unquoted_term_at(s, pos) is Backtrack <==> pos == s.len() || Delimiters::Term.ends_at(
            s[pos],
        ),
{
    lemma_run_advances(s, pos, Delimiters::Term);
}

/// A key with a quoted value takes at least one character, and is a
/// criterion.
proof fn lemma_partially_quoted_term_at(s: Seq<char>, pos: int)
    requires
        0 <= pos <= s.len(),
    ensures
        partially_quoted_term_at(s, pos) matches Outcome::Done { next, value } ==> pos < next
            <= s.len() && value is Search,
{
    lemma_run_advances(s, pos, Delimiters::Key);
    match run(s, pos, Delimiters::Key) {
        Run::Ends(end) => {
            if end < s.len() {
                lemma_quoted_text(s, end + 1);
            }
        },
        _ => {},
    }
}

/// A quoted term takes at least its two quotes, and is a criterion.
proof fn lemma_quoted_term_at(s: Seq<char>, pos: int)
    requires
        0 <= pos <= s.len(),
    ensures
        quoted_term_at(s, pos) matches Outcome::Done { next, value } ==> pos < next <= s.len()
            && value is Search,
        quoted_term_at(s, pos) is Backtrack <==> !(pos < s.len() && s[pos] == '"'),
{
    lemma_quoted_text(s, pos);
}

/// A term takes at least one character, and is an operator or a criterion.
/// No term begins at the end of the input, at a space or at a parenthesis;
/// one begins at any other character.
pub proof fn lemma_text_at(s: Seq<char>, pos: int)
    requires
        0 <= pos <= s.len(),
    ensures
        text_at(s, pos) matches Outcome::Done { next, value } ==> pos < next <= s.len() && (
        value.is_operator() || value is Search),
        text_at(s, pos) is Backtrack <==> pos == s.len() || s[pos] == '(' || s[pos] == ')'
            || is_space(s[pos]),
{
    lemma_quoted_term_at(s, pos);
    lemma_partially_quoted_term_at(s, pos);
    lemma_unquoted_term_at(s, pos);
    if pos < s.len() && (s[pos] == '(' || s[pos] == ')' || is_space(s[pos])) {
        lemma_run_advances(s, pos, Delimiters::Key);
    }
}

/// A sequence that alternates so far still does with one more node that is
/// an operator or a well-formed operand.
pub proof fn lemma_appended_alternates(nodes: Seq<NodeView>, value: NodeView)
    requires
        alternates_so_far(nodes),
        value.is_operator() || value.is_operand(),
    ensures
        appended(nodes, value) matches Ok(longer) ==> alternates_so_far(longer) && longer.len()
            > 0,
{
}

/// A group takes at least its two parentheses, and the nodes between them
/// alternate. A group begins at every `(`.
pub proof fn lemma_group_at(s: Seq<char>, pos: int)
    requires
        0 <= pos <= s.len(),
    ensures
        group_at(s, pos) matches Outcome::Done { next, value } ==> pos < next <= s.len()
            && value is Group && value.is_operand(),
        group_at(s, pos) is Backtrack <==> !(pos < s.len() && s[pos] == '('),
    decreases s.len() - pos, 0nat,
{
    if pos < s.len() && s[pos] == '(' {
        lemma_group_rest(s, pos + 1, pos + 1, Seq::empty());
    }
}

/// A negation takes at least two characters and negates a criterion or a
/// well-formed group.
pub proof fn lemma_negated_node_at(s: Seq<char>, pos: int)
    requires
        0 <= pos <= s.len(),
    ensures
        negated_node_at(s, pos) matches Outcome::Done { next, value } ==> pos < next <= s.len()
            && value is Not && value.is_operand(),
    decreases s.len() - pos, 1nat,
{
    if pos < s.len() && s[pos] == '-' {
        lemma_group_at(s, pos + 1);
        lemma_text_at(s, pos + 1);
        match negated_node_at(s, pos) {
            Outcome::Done { next, value } => {
                let child = *value->Not_0;
                assert(child is Search || child is Group);
                assert(child.is_operand());
            },
            _ => {},
        }
    }
}

/// A node takes at least one character, and is an operator or a well-formed
/// operand. After any spaces, a node begins at every character but `)`.
pub proof fn lemma_node_at(s: Seq<char>, pos: int)
    requires
        0 <= pos <= s.len(),
    ensures
        node_at(s, pos) matches Outcome::Done { next, value } ==> pos < next <= s.len() && (
        value.is_operator() || value.is_operand()),
        node_at(s, pos) is Backtrack <==> spaces_end(s, pos) == s.len() || s[spaces_end(s, pos)]
            == ')',
    decreases s.len() - pos, 2nat,
{
    lemma_spaces_end_bounds(s, pos);
    let start = spaces_end(s, pos);
    lemma_negated_node_at(s, start);
    lemma_group_at(s, start);
    lemma_text_at(s, start);
}

/// The rest of a sequence that alternates so far is a sequence that
/// alternates, unless it is empty. It ends at the end of the input or before
/// a `)`, and the rule never fails to apply.
pub proof fn lemma_group_rest(s: Seq<char>, start: int, pos: int, nodes: Seq<NodeView>)
    requires
        0 <= pos <= s.len(),
        alternates_so_far(nodes),
    ensures
        !(group_rest(s, start, pos, nodes) is Backtrack),
        group_rest(s, start, pos, nodes) matches Outcome::Done { next, value } ==> {
            &&& pos <= next <= s.len()
            &&& next == s.len() || s[next] == ')'
            &&& value.len() == 0 || alternates(value)
            &&& value.len() >= nodes.len()
        },
    decreases s.len() - pos, 3nat,
{
    lemma_node_at(s, pos);
    lemma_spaces_end_bounds(s, pos);
    match node_at(s, pos) {
        Outcome::Done { next, value } => {
            lemma_appended_alternates(nodes, value);
            match appended(nodes, value) {
                Ok(longer) => {
                    lemma_group_rest(s, start, next, longer);
                },
                Err(_) => {},
            }
        },
        _ => {},
    }
}

/// The nodes of a query alternate: operands at 0, 2, 4 and so on, operators
/// between them, never an operator at the end, and so in every group. There
/// is at least one node.
pub proof fn lemma_query_alternates(s: Seq<char>)
    ensures
        query_of_chars(s) matches Ok(nodes) ==> alternates(nodes),
        query(s) matches Ok(nodes) ==> alternates(nodes),
{
    lemma_group_rest(s, 0, 0, Seq::empty());
    lemma_group_rest(trimmed(s), 0, 0, Seq::empty());
}

/// A query is refused for a `)` that nothing opened only where the sequence
/// of its nodes ends before a `)`.
pub proof fn lemma_unopened_group(s: Seq<char>)
    ensures
        group_inner_at(s, 0) matches Outcome::Done { next, value } ==> (next < s.len() ==> s[next]
            == ')'),
        !(group_inner_at(s, 0) is Backtrack),
{
    lemma_group_rest(s, 0, 0, Seq::empty());
}

/// A query of whitespace only stands for the whole collection, and so does
/// the empty query.
pub proof fn lemma_blank_query(input: Seq<char>)
    ensures
        is_blank(input) ==> query(input) == Ok::<Seq<NodeView>, SearchErrorKindView>(
            seq![NodeView::Search(SearchNodeView::WholeCollection)],
        ),
{
    if is_blank(input) {
        lemma_trimmed_blank(input);
    }
}

/// Parsing is a function of the query: two results for the same query are
/// the same nodes, or the same failure.
pub proof fn lemma_parse_deterministic(
    input: Seq<char>,
    first: Result<Vec<Node>, SearchErrorKind>,
    second: Result<Vec<Node>, SearchErrorKind>,
)
    requires
        parse_view(first) == query(input),
        parse_view(second) == query(input),
    ensures
        parse_view(first) == parse_view(second),
        first is Ok <==> second is Ok,
{
}

/// An operand directly after an operand gives the sequence that an `And`
/// between the two gives.
pub proof fn lemma_implicit_and(nodes: Seq<NodeView>, value: NodeView)
    requires
        nodes.len() % 2 == 1,
        !value.is_operator(),
    ensures
        appended(nodes, NodeView::And) == Ok::<Seq<NodeView>, SearchErrorKindView>(
            nodes.push(NodeView::And),
        ),
        appended(nodes, value) == appended(nodes.push(NodeView::And), value),
{
}

/// `t` between two quotes.
pub open spec fn quoted(t: Seq<char>) -> Seq<char> {
    seq!['"'] + t + seq!['"']
}

/// Whether the runs that `outer` ends go on wherever those that `inner`
/// ends do: `outer` ends at no other character, and escapes what `inner`
/// escapes.
pub open spec fn goes_on(inner: Delimiters, outer: Delimiters) -> bool {
    &&& forall|c: char| outer.ends_at(c) ==> inner.ends_at(c)
    &&& forall|c: char| inner.escapes(c) ==> outer.escapes(c)
}

/// What a term that stands for `criterion` yields, where it ends before
/// `next` and its text began at `position`.
pub open spec fn term_outcome(
    criterion: Result<SearchNodeView, SearchErrorKindView>,
    next: int,
    position: int,
) -> Outcome<NodeView> {
    match criterion {
        Ok(search) => Outcome::Done { next, value: NodeView::Search(search) },
        Err(kind) => Outcome::Abort { position, kind },
    }
}

/// A run goes over a text that is a whole run of its own, where it ends at
/// no other character and escapes what the text's run escapes: from inside
/// the text it gets to the text's end.
pub proof fn lemma_run_over(
    s: Seq<char>,
    offset: int,
    outer: Delimiters,
    t: Seq<char>,
    i: int,
    inner: Delimiters,
)
    requires
        0 <= i <= t.len(),
        0 <= offset,
        offset + t.len() <= s.len(),
        s.subrange(offset, offset + t.len()) == t,
        goes_on(inner, outer),
        run_from(t, i, inner) == Run::Ends(t.len() as int),
    ensures
        run_from(s, offset + i, outer) == run_from(s, offset + t.len(), outer),
    decreases t.len() - i,
{
    if i < t.len() {
        assert(s[offset + i] == t[i]);
        if t[i] == '\\' {
            assert(s[offset + i + 1] == t[i + 1]);
            lemma_run_over(s, offset, outer, t, i + 2, inner);
        } else {
            lemma_run_over(s, offset, outer, t, i + 1, inner);
        }
    }
}

/// Quotes around a term change nothing: the term stands for the same
/// criterion with them and without them.
pub proof fn lemma_quotes_around_term(t: Seq<char>)
    requires
        t.len() > 0,
        run(t, 0, Delimiters::Term) == Run::Ends(t.len() as int),
        !eq_ignore_case(t, "and"@),
        !eq_ignore_case(t, "or"@),
    ensures
        unquoted_term_at(t, 0) == term_outcome(text_node(t), t.len() as int, 0),
        quoted_term_at(quoted(t), 0) == term_outcome(text_node(t), t.len() as int + 2, 1),
{
    let q = quoted(t);
    assert(t.subrange(0, t.len() as int) == t);
    assert(q.subrange(1, 1 + t.len() as int) == t);
    assert(q[0] == '"' && q[t.len() as int + 1] == '"');
    assert(q[1] == t[0]);
    lemma_run_over(q, 1, Delimiters::Quote, t, 0, Delimiters::Term);
}

/// Quotes around a key and its value, or around the value alone, change
/// nothing: the three spellings stand for the same criterion.
pub proof fn lemma_quotes_around_value(key: Seq<char>, val: Seq<char>)
    requires
        key.len() > 0,
        run(key, 0, Delimiters::Key) == Run::Ends(key.len() as int),
        val.len() > 0,
        run(val, 0, Delimiters::Term) == Run::Ends(val.len() as int),
    ensures
        ({
            let plain = key + seq![':'] + val;
            let criterion = argument_node(key, val);
            &&& unquoted_term_at(plain, 0) == term_outcome(criterion, plain.len() as int, 0)
            &&& quoted_term_at(quoted(plain), 0) == term_outcome(
                criterion,
                plain.len() as int + 2,
                1,
            )
            &&& partially_quoted_term_at(key + seq![':'] + quoted(val), 0) == term_outcome(
                criterion,
                plain.len() as int + 2,
                0,
            )
        }),
{
    let plain = key + seq![':'] + val;
    let k = key.len() as int;
    assert(plain.subrange(0, k) == key);
    assert(plain.take(k) == key);
    assert(plain.subrange(k + 1, plain.len() as int) == val);
    assert(plain.skip(k + 1) == val);
    assert(plain[0] == key[0]);
    assert(plain[k] == ':');
    assert(plain[k + 1] == val[0]);
    // The whole is one term.
    lemma_run_over(plain, 0, Delimiters::Term, key, 0, Delimiters::Key);
    lemma_run_over(plain, k + 1, Delimiters::Term, val, 0, Delimiters::Term);
    assert(run(plain, 0, Delimiters::Term) == Run::Ends(plain.len() as int));
    // Its key ends at the first colon.
    lemma_run_over(plain, 0, Delimiters::Colon, key, 0, Delimiters::Key);
    assert(run(plain, 0, Delimiters::Colon) == Run::Ends(k));
    assert(text_node(plain) == argument_node(key, val));
    // It is neither of the two operators.
    reveal_strlit("and");
    reveal_strlit("or");
    assert(!eq_ignore_case(plain, "and"@)) by {
        if plain.len() == 3 {
            assert(ascii_lower(plain[k]) != ascii_lower("and"@[k]));
        }
    }
    assert(!eq_ignore_case(plain, "or"@)) by {
        if plain.len() == 2 {
            assert(ascii_lower(plain[k]) != ascii_lower("or"@[k]));
        }
    }
    lemma_quotes_around_term(plain);
    // The quoted value.
    let partly = key + seq![':'] + quoted(val);
    assert(partly.subrange(0, k) == key);
    assert(partly.subrange(k + 2, k + 2 + val.len()) == val);
    assert(partly[0] == key[0]);
    assert(partly[k] == ':');
    assert(partly[k + 1] == '"');
    assert(partly[k + 2] == val[0]);
    assert(partly[k + 2 + val.len()] == '"');
    lemma_run_over(partly, 0, Delimiters::Key, key, 0, Delimiters::Key);
    lemma_run_over(partly, k + 2, Delimiters::Quote, val, 0, Delimiters::Term);
    assert(run(partly, 0, Delimiters::Key) == Run::Ends(k));
    assert(run(partly, k + 2, Delimiters::Quote) == Run::Ends(k + 2 + val.len()));
    assert(quoted_text(partly, k + 1) == Outcome::Done {
        next: k + 3 + val.len(),
        value: val,
    });
}

/// A `-` before a space or at the end of the input negates nothing: it is
/// the text `-`.
pub proof fn lemma_bare_hyphen(s: Seq<char>, pos: int)
    requires
        0 <= pos < s.len(),
        s[pos] == '-',
        pos + 1 == s.len() || is_space(s[pos + 1]),
    ensures
        negated_node_at(s, pos) is Backtrack,
        node_at(s, pos) == (Outcome::Done {
            next: pos + 1,
            value: NodeView::Search(SearchNodeView::UnqualifiedText(seq!['-'])),
        }),
{
    let hyphen = seq!['-'];
    lemma_text_at(s, pos + 1);
    assert(negated_node_at(s, pos) is Backtrack);
    assert(spaces_end(s, pos) == pos);
    assert(group_at(s, pos) is Backtrack);
    assert(quoted_term_at(s, pos) is Backtrack);
    // The run from the hyphen on ends directly after it.
    reveal_with_fuel(run_from, 2);
    assert(run(s, pos, Delimiters::Key) == Run::Ends(pos + 1));
    assert(run(s, pos, Delimiters::Term) == Run::Ends(pos + 1));
    assert(partially_quoted_term_at(s, pos) is Backtrack);
    assert(s.subrange(pos, pos + 1) == hyphen);
    // The hyphen is no operator, and stands for itself.
    reveal_strlit("and");
    reveal_strlit("or");
    assert(!eq_ignore_case(hyphen, "and"@));
    assert(!eq_ignore_case(hyphen, "or"@));
    assert(run(hyphen, 0, Delimiters::Colon) == Run::Ends(1));
    reveal_with_fuel(unknown_escape_from, 2);
    reveal_with_fuel(resolved_from, 2);
    assert(unknown_escape_from(hyphen, 0) is None);
    assert(resolved_from(hyphen, 0) == hyphen);
    assert(unescaped(hyphen) == Ok::<Seq<char>, SearchErrorKindView>(hyphen));
    assert(text_node(hyphen) == Ok::<SearchNodeView, SearchErrorKindView>(
        SearchNodeView::UnqualifiedText(hyphen),
    ));
}

} // verus!
