//! The grammar of a query: terms, negation, groups, and the sequence of
//! nodes in which operands and operators alternate.

use crate::ast::lemma_nodes_view;
use crate::laws::lemma_blank_query;
use crate::laws::lemma_query_alternates;
use crate::ast::lemma_nodes_view_push;
use crate::ast::alternates;
use crate::ast::nodes_view;
use crate::ast::Node;
use crate::ast::NodeView;
use crate::ast::SearchNode;
use crate::ast::SearchNodeView;
use crate::error::outcome_of;
use crate::error::Failure;
use crate::error::Outcome;
use crate::error::ParseError;
use crate::error::ParseErrorView;
use crate::error::SearchErrorKind;
use crate::error::SearchErrorKindView;
use crate::lexical::quoted_term_str;
use crate::lexical::quoted_text;
use crate::lexical::run;
use crate::lexical::scan_run;
use crate::lexical::spaces_end;
use crate::lexical::whitespace0;
use crate::lexical::Delimiters;
use crate::lexical::Run;
use crate::lexical::Scan;
use crate::predicate::argument_node;
use crate::predicate::search_node_for_text;
use crate::predicate::search_node_for_text_with_argument;
use crate::predicate::text_node;
use crate::text::chars_of;
use crate::text::eq_ignore_case;
use crate::text::is_unicode_whitespace;
use crate::text::is_word_ignore_case;
use crate::text::trim;
use crate::text::trimmed;
use vstd::pervasive::unreached;
use vstd::prelude::*;
use vstd::slice::slice_subrange;

verus! {

/// What an unquoted term at `pos` yields. The term is the longest run of text
/// up to a space, a `"`, a `(` or a `)`. The words `and` and `or`, in any
/// case, are the two operators; any other term is a criterion. A backslash
/// at the end of the input or before a space is an unknown escape.
pub open spec fn unquoted_term_at(s: Seq<char>, pos: int) -> Outcome<NodeView> {
    match run(s, pos, Delimiters::Term) {
        Run::Ends(end) => {
            let term = s.subrange(pos, end);
            if end <= pos {
                Outcome::Backtrack
            } else if eq_ignore_case(term, "and"@) {
                Outcome::Done { next: end, value: NodeView::And }
            } else if eq_ignore_case(term, "or"@) {
                Outcome::Done { next: end, value: NodeView::Or }
            } else {
                match text_node(term) {
                    Ok(search) => Outcome::Done { next: end, value: NodeView::Search(search) },
                    Err(kind) => Outcome::Abort { position: pos, kind },
                }
            }
        },
        Run::Nothing => Outcome::Backtrack,
        Run::Dangling => Outcome::Abort {
            position: pos,
            kind: SearchErrorKindView::UnknownEscape(seq!['\\']),
        },
        Run::Refused(at) => Outcome::Abort {
            position: pos,
            kind: SearchErrorKindView::UnknownEscape(seq!['\\', s[at]]),
        },
    }
}

/// What a key with a quoted value at `pos` yields, as in `deck:"two words"`.
/// Where the key, the `:` or the opening `"` is missing, the rule does not
/// apply; once the quote is open, what fails refuses the query.
pub open spec fn partially_quoted_term_at(s: Seq<char>, pos: int) -> Outcome<NodeView> {
    match run(s, pos, Delimiters::Key) {
        Run::Ends(end) => if end < s.len() && s[end] == ':' {
            match quoted_text(s, end + 1) {
                Outcome::Done { next, value } => match argument_node(s.subrange(pos, end), value) {
                    Ok(search) => Outcome::Done { next, value: NodeView::Search(search) },
                    Err(kind) => Outcome::Abort { position: pos, kind },
                },
                Outcome::Backtrack => Outcome::Backtrack,
                Outcome::Abort { position, kind } => Outcome::Abort { position, kind },
            }
        } else {
            Outcome::Backtrack
        },
        _ => Outcome::Backtrack,
    }
}

/// What a quoted term at `pos` yields: the criterion that the text between
/// the quotes stands for. That text begins one character after `pos`.
pub open spec fn quoted_term_at(s: Seq<char>, pos: int) -> Outcome<NodeView> {
    match quoted_text(s, pos) {
        Outcome::Done { next, value } => match text_node(value) {
            Ok(search) => Outcome::Done { next, value: NodeView::Search(search) },
            Err(kind) => Outcome::Abort { position: pos + 1, kind },
        },
        Outcome::Backtrack => Outcome::Backtrack,
        Outcome::Abort { position, kind } => Outcome::Abort { position, kind },
    }
}

/// What a term at `pos` yields: the first of a quoted term, a key with a
/// quoted value and an unquoted term that applies.
pub open spec fn text_at(s: Seq<char>, pos: int) -> Outcome<NodeView> {
    match quoted_term_at(s, pos) {
        Outcome::Backtrack => match partially_quoted_term_at(s, pos) {
            Outcome::Backtrack => unquoted_term_at(s, pos),
            outcome => outcome,
        },
        outcome => outcome,
    }
}

/// What a group at `pos` yields: a `(`, a sequence of nodes that is not
/// empty, and a `)`. After the `(`, what fails refuses the query.
pub open spec fn group_at(s: Seq<char>, pos: int) -> Outcome<NodeView>
    decreases s.len() - pos, 0nat,
{
    if 0 <= pos < s.len() && s[pos] == '(' {
        match group_inner_at(s, pos + 1) {
            Outcome::Done { next, value } => if next < s.len() && s[next] == ')' {
                if value.len() == 0 {
                    Outcome::Abort { position: pos, kind: SearchErrorKindView::EmptyGroup }
                } else {
                    Outcome::Done { next: next + 1, value: NodeView::Group(value) }
                }
            } else {
                Outcome::Abort { position: pos, kind: SearchErrorKindView::UnclosedGroup }
            },
            Outcome::Backtrack => Outcome::Backtrack,
            Outcome::Abort { position, kind } => Outcome::Abort { position, kind },
        }
    } else {
        Outcome::Backtrack
    }
}

/// What a negation at `pos` yields: a `-` and directly after it a group or a
/// term. Where neither follows, or the term is an operator, the rule does not
/// apply and the `-` is left to be read as text.
pub open spec fn negated_node_at(s: Seq<char>, pos: int) -> Outcome<NodeView>
    decreases s.len() - pos, 1nat,
{
    if 0 <= pos < s.len() && s[pos] == '-' {
        let operand = match group_at(s, pos + 1) {
            Outcome::Backtrack => text_at(s, pos + 1),
            outcome => outcome,
        };
        match operand {
            Outcome::Done { next, value } => if value.is_operator() {
                Outcome::Backtrack
            } else {
                Outcome::Done { next, value: NodeView::Not(Box::new(value)) }
            },
            outcome => outcome,
        }
    } else {
        Outcome::Backtrack
    }
}

/// What a node at `pos` yields: after any spaces, the first of a negation, a
/// group and a term that applies.
pub open spec fn node_at(s: Seq<char>, pos: int) -> Outcome<NodeView>
    decreases s.len() - pos, 2nat,
{
    let start = spaces_end(s, pos);
    if 0 <= pos <= start <= s.len() {
        match negated_node_at(s, start) {
            Outcome::Backtrack => match group_at(s, start) {
                Outcome::Backtrack => text_at(s, start),
                outcome => outcome,
            },
            outcome => outcome,
        }
    } else {
        Outcome::Backtrack
    }
}

/// The sequence `nodes` with one more node. An operand directly after an
/// operand is joined to it by `And`. An operator at the start or directly
/// after an operator is misplaced.
pub open spec fn appended(nodes: Seq<NodeView>, value: NodeView) -> Result<
    Seq<NodeView>,
    SearchErrorKindView,
> {
    if nodes.len() % 2 == 0 {
        if value is And {
            Err(SearchErrorKindView::MisplacedAnd)
        } else if value is Or {
            Err(SearchErrorKindView::MisplacedOr)
        } else {
            Ok(nodes.push(value))
        }
    } else if value.is_operator() {
        Ok(nodes.push(value))
    } else {
        Ok(nodes.push(NodeView::And).push(value))
    }
}

/// The operator at the end of `nodes`, where there is one: it is misplaced.
pub open spec fn trailing_operator(nodes: Seq<NodeView>) -> Option<SearchErrorKindView> {
    if nodes.len() > 0 && nodes.last() is And {
        Some(SearchErrorKindView::MisplacedAnd)
    } else if nodes.len() > 0 && nodes.last() is Or {
        Some(SearchErrorKindView::MisplacedOr)
    } else {
        None
    }
}

/// The rest of a sequence of nodes that began at `start`, has yielded `nodes`
/// and has got to `pos`. The sequence ends, after any spaces, where no node
/// follows. A misplaced operator refuses the query, at the start of the
/// sequence. A node takes at least one character, so the rest is shorter
/// each time.
pub open spec fn group_rest(s: Seq<char>, start: int, pos: int, nodes: Seq<NodeView>) -> Outcome<
    Seq<NodeView>,
>
    decreases s.len() - pos, 3nat,
{
    match node_at(s, pos) {
        Outcome::Done { next, value } => if pos < next <= s.len() {
            match appended(nodes, value) {
                Ok(longer) => group_rest(s, start, next, longer),
                Err(kind) => Outcome::Abort { position: start, kind },
            }
        } else {
            Outcome::Backtrack
        },
        Outcome::Backtrack => match trailing_operator(nodes) {
            Some(kind) => Outcome::Abort { position: start, kind },
            None => Outcome::Done { next: spaces_end(s, pos), value: nodes },
        },
        Outcome::Abort { position, kind } => Outcome::Abort { position, kind },
    }
}

/// What a sequence of nodes at `start` yields. The sequence may be empty.
pub open spec fn group_inner_at(s: Seq<char>, start: int) -> Outcome<Seq<NodeView>>
    decreases s.len() - start, 4nat,
{
    group_rest(s, start, start, Seq::empty())
}

/// What a query stands for as it is written: the sequence of its nodes,
/// which goes up to its end. The only character that no node
/// takes is a `)` that nothing opened. A query without a node stands for the
/// whole collection.
pub open spec fn query_of_chars(s: Seq<char>) -> Result<Seq<NodeView>, ParseErrorView> {
    match group_inner_at(s, 0) {
        Outcome::Done { next, value } => if next < s.len() {
            Err(ParseErrorView { position: next, kind: SearchErrorKindView::UnopenedGroup })
        } else if value.len() == 0 {
            Ok(seq![NodeView::Search(SearchNodeView::WholeCollection)])
        } else {
            Ok(value)
        },
        Outcome::Abort { position, kind } => Err(ParseErrorView { position, kind }),
        Outcome::Backtrack => Err(
            ParseErrorView { position: 0, kind: SearchErrorKindView::UnopenedGroup },
        ),
    }
}

/// What the query `input` stands for: what it stands for without the
/// whitespace at its two ends.
pub open spec fn query(input: Seq<char>) -> Result<Seq<NodeView>, SearchErrorKindView> {
    match query_of_chars(trimmed(input)) {
        Ok(nodes) => Ok(nodes),
        Err(error) => Err(error.kind),
    }
}

/// The outcome that the result of a sequence of nodes stands for.
pub open spec fn nodes_outcome(r: Result<(usize, Vec<Node>), Failure>) -> Outcome<Seq<NodeView>> {
    match r {
        Ok((next, nodes)) => Outcome::Done { next: next as int, value: nodes_view(nodes@) },
        Err(Failure::Backtrack) => Outcome::Backtrack,
        Err(Failure::Abort { position, kind }) => Outcome::Abort {
            position: position as int,
            kind: kind@,
        },
    }
}

/// The view of the result of a parse.
pub open spec fn parse_view<E: View>(r: Result<Vec<Node>, E>) -> Result<Seq<NodeView>, E::V> {
    match r {
        Ok(nodes) => Ok(nodes_view(nodes@)),
        Err(error) => Err(error@),
    }
}

/// The text `\` and, where there is one, the character after it.
fn escape_sequence(second: Option<char>) -> (s: String)
    ensures
        s@ == (match second {
            Some(c) => seq!['\\', c],
            None => seq!['\\'],
        }),
{
    let mut s = String::new();
    s.push('\\');
    if let Some(c) = second {
        s.push(c);
        assert(s@ == seq!['\\', c]);
    } else {
        assert(s@ == seq!['\\']);
    }
    s
}

/// Reads an unquoted term at `pos`: up to a space, a `"`, a `(` or a `)`.
pub fn unquoted_term(input: &[char], pos: usize) -> (r: Result<(usize, Node), Failure>)
    requires
        pos <= input.len(),
    ensures
        outcome_of(r) == unquoted_term_at(input@, pos as int),
        r matches Ok((next, _)) ==> pos < next <= input.len(),
        r matches Err(Failure::Abort { position, .. }) ==> pos <= position <= input.len(),
{
    match scan_run(input, pos, Delimiters::Term) {
        Scan::Ends(end) => {
            if end <= pos {
                return Err(Failure::Backtrack);
            }
            let term = slice_subrange(input, pos, end);
            if is_word_ignore_case(term, "and") {
                Ok((end, Node::And))
            } else if is_word_ignore_case(term, "or") {
                Ok((end, Node::Or))
            } else {
                match search_node_for_text(term) {
                    Ok(search) => Ok((end, Node::Search(search))),
                    Err(kind) => Err(Failure::Abort { position: pos, kind }),
                }
            }
        },
        Scan::Nothing => Err(Failure::Backtrack),
        Scan::Dangling => Err(
            Failure::Abort {
                position: pos,
                kind: SearchErrorKind::UnknownEscape(escape_sequence(None)),
            },
        ),
        Scan::Refused(at) => Err(
            Failure::Abort {
                position: pos,
                kind: SearchErrorKind::UnknownEscape(escape_sequence(Some(input[at]))),
            },
        ),
    }
}

/// Reads a key with a quoted value at `pos`, as in `deck:"two words"`.
pub fn partially_quoted_term(input: &[char], pos: usize) -> (r: Result<(usize, Node), Failure>)
    requires
        pos <= input.len(),
    ensures
        outcome_of(r) == partially_quoted_term_at(input@, pos as int),
        r matches Ok((next, _)) ==> pos < next <= input.len(),
        r matches Err(Failure::Abort { position, .. }) ==> pos <= position <= input.len(),
{
    match scan_run(input, pos, Delimiters::Key) {
        Scan::Ends(end) => {
            if !(end < input.len() && input[end] == ':') {
                return Err(Failure::Backtrack);
            }
            match quoted_term_str(input, end + 1) {
                Ok((next, val)) => {
                    let key = slice_subrange(input, pos, end);
                    match search_node_for_text_with_argument(key, val) {
                        Ok(search) => Ok((next, Node::Search(search))),
                        Err(kind) => Err(Failure::Abort { position: pos, kind }),
                    }
                },
                Err(e) => Err(e),
            }
        },
        _ => Err(Failure::Backtrack),
    }
}

/// Reads a quoted term at `pos`.
pub fn quoted_term(input: &[char], pos: usize) -> (r: Result<(usize, Node), Failure>)
    requires
        pos <= input.len(),
    ensures
        outcome_of(r) == quoted_term_at(input@, pos as int),
        r matches Ok((next, _)) ==> pos < next <= input.len(),
        r matches Err(Failure::Abort { position, .. }) ==> pos <= position <= input.len(),
{
    match quoted_term_str(input, pos) {
        Ok((next, term)) => match search_node_for_text(term) {
            Ok(search) => Ok((next, Node::Search(search))),
            Err(kind) => Err(Failure::Abort { position: pos + 1, kind }),
        },
        Err(e) => Err(e),
    }
}

/// Reads a term at `pos`, quoted or not.
pub fn text(input: &[char], pos: usize) -> (r: Result<(usize, Node), Failure>)
    requires
        pos <= input.len(),
    ensures
        outcome_of(r) == text_at(input@, pos as int),
        r matches Ok((next, _)) ==> pos < next <= input.len(),
        r matches Err(Failure::Abort { position, .. }) ==> pos <= position <= input.len(),
{
    match quoted_term(input, pos) {
        Err(Failure::Backtrack) => match partially_quoted_term(input, pos) {
            Err(Failure::Backtrack) => unquoted_term(input, pos),
            r => r,
        },
        r => r,
    }
}

/// Whether `node` is `And` or `Or`.
pub fn is_operator(node: &Node) -> (b: bool)
    ensures
        b == node@.is_operator(),
{
    match node {
        Node::And => true,
        Node::Or => true,
        _ => false,
    }
}

/// Reads a group at `pos`: one or more nodes between `(` and `)`.
pub fn group(input: &[char], pos: usize) -> (r: Result<(usize, Node), Failure>)
    requires
        pos <= input.len(),
    ensures
        outcome_of(r) == group_at(input@, pos as int),
        r matches Ok((next, _)) ==> pos < next <= input.len(),
        r matches Err(Failure::Abort { position, .. }) ==> pos <= position <= input.len(),
    decreases input.len() - pos, 0nat,
{
    if !(pos < input.len() && input[pos] == '(') {
        return Err(Failure::Backtrack);
    }
    match group_inner(input, pos + 1) {
        Ok((next, inner)) => {
            if next < input.len() && input[next] == ')' {
                if inner.len() == 0 {
                    Err(Failure::Abort { position: pos, kind: SearchErrorKind::EmptyGroup })
                } else {
                    Ok((next + 1, Node::Group(inner)))
                }
            } else {
                Err(Failure::Abort { position: pos, kind: SearchErrorKind::UnclosedGroup })
            }
        },
        Err(e) => Err(e),
    }
}

/// Reads a negation at `pos`: a `-` and directly after it a group or a term.
pub fn negated_node(input: &[char], pos: usize) -> (r: Result<(usize, Node), Failure>)
    requires
        pos <= input.len(),
    ensures
        outcome_of(r) == negated_node_at(input@, pos as int),
        r matches Ok((next, _)) ==> pos < next <= input.len(),
        r matches Err(Failure::Abort { position, .. }) ==> pos <= position <= input.len(),
    decreases input.len() - pos, 1nat,
{
    if !(pos < input.len() && input[pos] == '-') {
        return Err(Failure::Backtrack);
    }
    let operand = match group(input, pos + 1) {
        Err(Failure::Backtrack) => text(input, pos + 1),
        r => r,
    };
    match operand {
        Ok((next, node)) => {
            if is_operator(&node) {
                Err(Failure::Backtrack)
            } else {
                Ok((next, Node::Not(Box::new(node))))
            }
        },
        Err(e) => Err(e),
    }
}

/// Reads a node at `pos`: spaces, and then a negation, a group or a term.
pub fn node(input: &[char], pos: usize) -> (r: Result<(usize, Node), Failure>)
    requires
        pos <= input.len(),
    ensures
        outcome_of(r) == node_at(input@, pos as int),
        r matches Ok((next, _)) ==> pos < next <= input.len(),
        r matches Err(Failure::Abort { position, .. }) ==> pos <= position <= input.len(),
    decreases input.len() - pos, 2nat,
{
    let start = whitespace0(input, pos);
    match negated_node(input, start) {
        Err(Failure::Backtrack) => match group(input, start) {
            Err(Failure::Backtrack) => text(input, start),
            r => r,
        },
        r => r,
    }
}

/// Adds `found` to `nodes`, after an `And` where both it and the last node
/// are operands. Refuses an operator at the start or after an operator, and
/// then leaves `nodes` as it is.
pub fn append_node(nodes: &mut Vec<Node>, found: Node) -> (r: Result<(), SearchErrorKind>)
    ensures
        match r {
            Ok(()) => appended(nodes_view(old(nodes)@), found@) == Ok::<
                Seq<NodeView>,
                SearchErrorKindView,
            >(nodes_view(final(nodes)@)),
            Err(kind) => appended(nodes_view(old(nodes)@), found@) == Err::<
                Seq<NodeView>,
                SearchErrorKindView,
            >(kind@) && final(nodes)@ == old(nodes)@,
        },
{
    proof {
        lemma_nodes_view(nodes@);
    }
    if nodes.len() % 2 == 0 {
        match &found {
            Node::And => {
                return Err(SearchErrorKind::MisplacedAnd);
            },
            Node::Or => {
                return Err(SearchErrorKind::MisplacedOr);
            },
            _ => {},
        }
    } else if !is_operator(&found) {
        proof {
            lemma_nodes_view_push(nodes@, Node::And);
        }
        nodes.push(Node::And);
    }
    proof {
        lemma_nodes_view_push(nodes@, found);
    }
    nodes.push(found);
    Ok(())
}

/// The operator at the end of `nodes`, where there is one.
pub fn find_trailing_operator(nodes: &Vec<Node>) -> (r: Option<SearchErrorKind>)
    ensures
        (match r {
            Some(kind) => Some(kind@),
            None => None,
        }) == trailing_operator(nodes_view(nodes@)),
{
    proof {
        lemma_nodes_view(nodes@);
    }
    if nodes.len() == 0 {
        return None;
    }
    match &nodes[nodes.len() - 1] {
        Node::And => Some(SearchErrorKind::MisplacedAnd),
        Node::Or => Some(SearchErrorKind::MisplacedOr),
        _ => None,
    }
}

/// Reads the nodes from `start` on, as many as there are, and the spaces
/// after them. Between two operands that follow each other it puts `And`.
pub fn group_inner(input: &[char], start: usize) -> (r: Result<(usize, Vec<Node>), Failure>)
    requires
        start <= input.len(),
    ensures
        nodes_outcome(r) == group_inner_at(input@, start as int),
        r matches Ok((next, _)) ==> start <= next <= input.len(),
        r matches Err(Failure::Abort { position, .. }) ==> start <= position <= input.len(),
        !(r matches Err(Failure::Backtrack)),
    decreases input.len() - start, 4nat,
{
    let mut pos: usize = start;
    let mut nodes: Vec<Node> = Vec::new();
    loop
        invariant
            start <= pos <= input.len(),
            group_inner_at(input@, start as int) == group_rest(
                input@,
                start as int,
                pos as int,
                nodes_view(nodes@),
            ),
        ensures
            start <= pos <= input.len(),
            node_at(input@, pos as int) is Backtrack,
            group_inner_at(input@, start as int) == group_rest(
                input@,
                start as int,
                pos as int,
                nodes_view(nodes@),
            ),
        decreases input.len() - pos,
    {
        match node(input, pos) {
            Ok((next, found)) => {
                match append_node(&mut nodes, found) {
                    Ok(()) => {
                        pos = next;
                    },
                    Err(kind) => {
                        return Err(Failure::Abort { position: start, kind });
                    },
                }
            },
            Err(Failure::Backtrack) => {
                break ;
            },
            Err(e) => {
                return Err(e);
            },
        }
    }
    match find_trailing_operator(&nodes) {
        Some(kind) => Err(Failure::Abort { position: start, kind }),
        None => {
            let next = whitespace0(input, pos);
            Ok((next, nodes))
        },
    }
}

/// Parses a query as it stands, without trimming it. Positions count the
/// characters of `input` from 0.
pub fn parse_chars(input: &[char]) -> (r: Result<Vec<Node>, ParseError>)
    ensures
        parse_view(r) == query_of_chars(input@),
        r matches Ok(nodes) ==> alternates(nodes_view(nodes@)),
        r matches Err(error) ==> error.position <= input.len(),
{
    proof {
        lemma_query_alternates(input@);
    }
    match group_inner(input, 0) {
        Ok((next, mut nodes)) => {
            if next < input.len() {
                Err(ParseError { position: next, kind: SearchErrorKind::UnopenedGroup })
            } else {
                if nodes.len() == 0 {
                    nodes.push(Node::Search(SearchNode::WholeCollection));
                    proof {
                        lemma_nodes_view(nodes@);
                        assert(nodes_view(nodes@) =~= seq![
                            NodeView::Search(SearchNodeView::WholeCollection),
                        ]);
                    }
                }
                Ok(nodes)
            }
        },
        Err(Failure::Abort { position, kind }) => Err(ParseError { position, kind }),
        Err(Failure::Backtrack) => unreached(),
    }
}

/// Parses a query into its nodes. Whitespace at the two ends of the query
/// does not count. A query of whitespace only stands for the whole
/// collection.
pub fn parse(input: &str) -> (r: Result<Vec<Node>, SearchErrorKind>)
    ensures
        parse_view(r) == query(input@),
        r matches Ok(nodes) ==> alternates(nodes_view(nodes@)),
        is_blank(input@) ==> parse_view(r) == Ok::<Seq<NodeView>, SearchErrorKindView>(
            seq![NodeView::Search(SearchNodeView::WholeCollection)],
        ),
{
    proof {
        lemma_blank_query(input@);
    }
    let chars = chars_of(input);
    let (start, end) = trim(chars.as_slice());
    match parse_chars(slice_subrange(chars.as_slice(), start, end)) {
        Ok(nodes) => Ok(nodes),
        Err(error) => Err(error.kind),
    }
}

/// Whether `s` holds whitespace only.
pub open spec fn is_blank(s: Seq<char>) -> bool {
    forall|i: int| 0 <= i < s.len() ==> is_unicode_whitespace(#[trigger] s[i])
}

} // verus!
