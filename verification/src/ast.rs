//! The syntax tree of a search query, and its mathematical view.
//!
//! Executable values hold their text in `String`s and their children in
//! `Vec`s. Contracts speak of the views declared here, in which text is a
//! `Seq<char>` and children are a `Seq` of views.

use vstd::prelude::*;

verus! {

/// Identifier of a deck.
#[derive(Debug, PartialEq, Eq, Clone, Copy)]
pub struct DeckID(pub i64);

/// Identifier of a note type.
#[derive(Debug, PartialEq, Eq, Clone, Copy)]
pub struct NoteTypeID(pub i64);

/// The scheduling state that `is:` asks for.
#[derive(Debug, PartialEq, Clone)]
pub enum StateKind {
    New,
    Review,
    Learning,
    Due,
    Buried,
    UserBuried,
    SchedBuried,
    Suspended,
}

/// How a review was answered.
#[derive(Debug, PartialEq, Clone)]
pub enum EaseKind {
    /// One of the four answer buttons, numbered from 1.
    AnswerButton(u8),
    AnyAnswerButton,
    ManualReschedule,
}

/// A card template, by position or by name.
#[derive(Debug, PartialEq, Clone)]
pub enum TemplateKind {
    /// Position of the template, counted from 0.
    Ordinal(u16),
    Name(String),
}

/// The card property that `prop:` compares.
#[derive(Debug, PartialEq, Clone)]
pub enum PropertyKind {
    Due(i32),
    Interval(u32),
    Reps(u32),
    Lapses(u32),
    /// The ease factor, as the decimal floating-point literal that was typed.
    Ease(String),
    Position(u32),
    Rated(i32, EaseKind),
}

/// A single search criterion.
#[derive(Debug, PartialEq, Clone)]
pub enum SearchNode {
    /// Text without a key, matched anywhere.
    UnqualifiedText(String),
    /// `field:text`, where `field` is none of the known keys.
    SingleField { field: String, text: String, is_re: bool },
    AddedInDays(u32),
    EditedInDays(u32),
    CardTemplate(TemplateKind),
    Deck(String),
    DeckID(DeckID),
    NoteTypeID(NoteTypeID),
    NoteType(String),
    Rated { days: u32, ease: EaseKind },
    Tag(String),
    Duplicates { note_type_id: NoteTypeID, text: String },
    State(StateKind),
    Flag(u8),
    NoteIDs(String),
    CardIDs(String),
    Property { operator: String, kind: PropertyKind },
    WholeCollection,
    Regex(String),
    NoCombining(String),
    WordBoundary(String),
}

/// One element of a parsed query.
#[derive(Debug, PartialEq)]
pub enum Node {
    And,
    Or,
    Not(Box<Node>),
    Group(Vec<Node>),
    Search(SearchNode),
}

/// View of a [`TemplateKind`].
pub enum TemplateKindView {
    Ordinal(u16),
    Name(Seq<char>),
}

/// View of a [`PropertyKind`].
pub enum PropertyKindView {
    Due(i32),
    Interval(u32),
    Reps(u32),
    Lapses(u32),
    Ease(Seq<char>),
    Position(u32),
    Rated(i32, EaseKind),
}

/// View of a [`SearchNode`].
pub enum SearchNodeView {
    UnqualifiedText(Seq<char>),
    SingleField { field: Seq<char>, text: Seq<char>, is_re: bool },
    AddedInDays(u32),
    EditedInDays(u32),
    CardTemplate(TemplateKindView),
    Deck(Seq<char>),
    DeckID(DeckID),
    NoteTypeID(NoteTypeID),
    NoteType(Seq<char>),
    Rated { days: u32, ease: EaseKind },
    Tag(Seq<char>),
    Duplicates { note_type_id: NoteTypeID, text: Seq<char> },
    State(StateKind),
    Flag(u8),
    NoteIDs(Seq<char>),
    CardIDs(Seq<char>),
    Property { operator: Seq<char>, kind: PropertyKindView },
    WholeCollection,
    Regex(Seq<char>),
    NoCombining(Seq<char>),
    WordBoundary(Seq<char>),
}

/// View of a [`Node`].
pub enum NodeView {
    And,
    Or,
    Not(Box<NodeView>),
    Group(Seq<NodeView>),
    Search(SearchNodeView),
}

impl View for TemplateKind {
    type V = TemplateKindView;

    open spec fn view(&self) -> TemplateKindView {
        match self {
            TemplateKind::Ordinal(n) => TemplateKindView::Ordinal(*n),
            TemplateKind::Name(name) => TemplateKindView::Name(name@),
        }
    }
}

impl View for PropertyKind {
    type V = PropertyKindView;

    open spec fn view(&self) -> PropertyKindView {
        match self {
            PropertyKind::Due(n) => PropertyKindView::Due(*n),
            PropertyKind::Interval(n) => PropertyKindView::Interval(*n),
            PropertyKind::Reps(n) => PropertyKindView::Reps(*n),
            PropertyKind::Lapses(n) => PropertyKindView::Lapses(*n),
            PropertyKind::Ease(text) => PropertyKindView::Ease(text@),
            PropertyKind::Position(n) => PropertyKindView::Position(*n),
            PropertyKind::Rated(days, ease) => PropertyKindView::Rated(*days, *ease),
        }
    }
}

impl View for SearchNode {
    type V = SearchNodeView;

    open spec fn view(&self) -> SearchNodeView {
        match self {
            SearchNode::UnqualifiedText(text) => SearchNodeView::UnqualifiedText(text@),
            SearchNode::SingleField { field, text, is_re } => SearchNodeView::SingleField {
                field: field@,
                text: text@,
                is_re: *is_re,
            },
            SearchNode::AddedInDays(days) => SearchNodeView::AddedInDays(*days),
            SearchNode::EditedInDays(days) => SearchNodeView::EditedInDays(*days),
            SearchNode::CardTemplate(kind) => SearchNodeView::CardTemplate(kind@),
            SearchNode::Deck(name) => SearchNodeView::Deck(name@),
            SearchNode::DeckID(id) => SearchNodeView::DeckID(*id),
            SearchNode::NoteTypeID(id) => SearchNodeView::NoteTypeID(*id),
            SearchNode::NoteType(name) => SearchNodeView::NoteType(name@),
            SearchNode::Rated { days, ease } => SearchNodeView::Rated { days: *days, ease: *ease },
            SearchNode::Tag(name) => SearchNodeView::Tag(name@),
            SearchNode::Duplicates { note_type_id, text } => SearchNodeView::Duplicates {
                note_type_id: *note_type_id,
                text: text@,
            },
            SearchNode::State(state) => SearchNodeView::State(*state),
            SearchNode::Flag(flag) => SearchNodeView::Flag(*flag),
            SearchNode::NoteIDs(ids) => SearchNodeView::NoteIDs(ids@),
            SearchNode::CardIDs(ids) => SearchNodeView::CardIDs(ids@),
            SearchNode::Property { operator, kind } => SearchNodeView::Property {
                operator: operator@,
                kind: kind@,
            },
            SearchNode::WholeCollection => SearchNodeView::WholeCollection,
            SearchNode::Regex(text) => SearchNodeView::Regex(text@),
            SearchNode::NoCombining(text) => SearchNodeView::NoCombining(text@),
            SearchNode::WordBoundary(text) => SearchNodeView::WordBoundary(text@),
        }
    }
}

impl View for Node {
    type V = NodeView;

    open spec fn view(&self) -> NodeView {
        node_view(*self)
    }
}

/// The view of `node`.
pub open spec fn node_view(node: Node) -> NodeView
    decreases node, 0nat,
{
    match node {
        Node::And => NodeView::And,
        Node::Or => NodeView::Or,
        Node::Not(child) => NodeView::Not(Box::new(node_view(*child))),
        Node::Group(children) => NodeView::Group(nodes_view(children@)),
        Node::Search(search) => NodeView::Search(search@),
    }
}

/// The views of the nodes of `nodes`, in order.
pub open spec fn nodes_view(nodes: Seq<Node>) -> Seq<NodeView>
    decreases nodes, 1nat,
{
    if nodes.len() == 0 {
        Seq::empty()
    } else {
        nodes_view(nodes.drop_last()).push(node_view(nodes.last()))
    }
}

/// The view of a sequence of nodes holds the view of each node, in order.
pub proof fn lemma_nodes_view(nodes: Seq<Node>)
    ensures
        nodes_view(nodes).len() == nodes.len(),
        forall|i: int| 0 <= i < nodes.len() ==> #[trigger] nodes_view(nodes)[i] == nodes[i]@,
    decreases nodes.len(),
{
    if nodes.len() > 0 {
        lemma_nodes_view(nodes.drop_last());
    }
}

/// Adding a node to a sequence adds its view to the view of the sequence.
pub proof fn lemma_nodes_view_push(nodes: Seq<Node>, node: Node)
    ensures
        nodes_view(nodes.push(node)) == nodes_view(nodes).push(node@),
{
    assert(nodes.push(node).drop_last() == nodes);
}

impl NodeView {
    /// Whether the node is `And` or `Or`.
    pub open spec fn is_operator(self) -> bool {
        self is And || self is Or
    }

    /// Whether the node is a well-formed operand: a criterion, a group whose
    /// nodes alternate, or the negation of one of these two.
    pub open spec fn is_operand(self) -> bool
        decreases self, 0nat,
    {
        match self {
            NodeView::And | NodeView::Or => false,
            NodeView::Search(_) => true,
            NodeView::Not(child) => (*child is Search || *child is Group) && child.is_operand(),
            NodeView::Group(children) => alternates(children),
        }
    }
}

/// Whether operands and operators alternate in `nodes`: there is an operand
/// at 0, 2, 4 and so on, an operator at 1, 3, 5 and so on, and the last node
/// is an operand. Each operand is well formed in turn.
pub open spec fn alternates(nodes: Seq<NodeView>) -> bool
    decreases nodes, 1nat,
{
    &&& nodes.len() % 2 == 1
    &&& forall|i: int|
        0 <= i < nodes.len() ==> if i % 2 == 0 {
            (#[trigger] nodes[i]).is_operand()
        } else {
            nodes[i].is_operator()
        }
}

} // verus!
