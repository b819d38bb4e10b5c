//! The ways in which a query can be refused.

use vstd::prelude::*;

verus! {

/// Why a query was refused. Where a variant holds text, it is the part of the
/// query that the failure is about.
#[derive(Debug, PartialEq, Clone)]
pub enum SearchErrorKind {
    MisplacedAnd,
    MisplacedOr,
    EmptyGroup,
    UnopenedGroup,
    UnclosedGroup,
    EmptyQuote,
    UnclosedQuote,
    MissingKey,
    /// The backslash and the character after it, or the backslash alone where
    /// the text ends on it.
    UnknownEscape(String),
    InvalidFlag,
    InvalidAdded,
    InvalidEdited,
    InvalidResched,
    InvalidRatedDays,
    InvalidRatedEase(String),
    InvalidDupeMid,
    InvalidDupeText,
    InvalidState(String),
    InvalidDid,
    InvalidMid,
    InvalidIdList,
    InvalidPropProperty(String),
    InvalidPropOperator(String),
    InvalidPropFloat(String),
    InvalidPropInteger(String),
    InvalidPropUnsigned(String),
}

/// View of a [`SearchErrorKind`].
pub enum SearchErrorKindView {
    MisplacedAnd,
    MisplacedOr,
    EmptyGroup,
    UnopenedGroup,
    UnclosedGroup,
    EmptyQuote,
    UnclosedQuote,
    MissingKey,
    UnknownEscape(Seq<char>),
    InvalidFlag,
    InvalidAdded,
    InvalidEdited,
    InvalidResched,
    InvalidRatedDays,
    InvalidRatedEase(Seq<char>),
    InvalidDupeMid,
    InvalidDupeText,
    InvalidState(Seq<char>),
    InvalidDid,
    InvalidMid,
    InvalidIdList,
    InvalidPropProperty(Seq<char>),
    InvalidPropOperator(Seq<char>),
    InvalidPropFloat(Seq<char>),
    InvalidPropInteger(Seq<char>),
    InvalidPropUnsigned(Seq<char>),
}

impl View for SearchErrorKind {
    type V = SearchErrorKindView;

    open spec fn view(&self) -> SearchErrorKindView {
        match self {
            SearchErrorKind::MisplacedAnd => SearchErrorKindView::MisplacedAnd,
            SearchErrorKind::MisplacedOr => SearchErrorKindView::MisplacedOr,
            SearchErrorKind::EmptyGroup => SearchErrorKindView::EmptyGroup,
            SearchErrorKind::UnopenedGroup => SearchErrorKindView::UnopenedGroup,
            SearchErrorKind::UnclosedGroup => SearchErrorKindView::UnclosedGroup,
            SearchErrorKind::EmptyQuote => SearchErrorKindView::EmptyQuote,
            SearchErrorKind::UnclosedQuote => SearchErrorKindView::UnclosedQuote,
            SearchErrorKind::MissingKey => SearchErrorKindView::MissingKey,
            SearchErrorKind::UnknownEscape(t) => SearchErrorKindView::UnknownEscape(t@),
            SearchErrorKind::InvalidFlag => SearchErrorKindView::InvalidFlag,
            SearchErrorKind::InvalidAdded => SearchErrorKindView::InvalidAdded,
            SearchErrorKind::InvalidEdited => SearchErrorKindView::InvalidEdited,
            SearchErrorKind::InvalidResched => SearchErrorKindView::InvalidResched,
            SearchErrorKind::InvalidRatedDays => SearchErrorKindView::InvalidRatedDays,
            SearchErrorKind::InvalidRatedEase(t) => SearchErrorKindView::InvalidRatedEase(t@),
            SearchErrorKind::InvalidDupeMid => SearchErrorKindView::InvalidDupeMid,
            SearchErrorKind::InvalidDupeText => SearchErrorKindView::InvalidDupeText,
            SearchErrorKind::InvalidState(t) => SearchErrorKindView::InvalidState(t@),
            SearchErrorKind::InvalidDid => SearchErrorKindView::InvalidDid,
            SearchErrorKind::InvalidMid => SearchErrorKindView::InvalidMid,
            SearchErrorKind::InvalidIdList => SearchErrorKindView::InvalidIdList,
            SearchErrorKind::InvalidPropProperty(t) => SearchErrorKindView::InvalidPropProperty(t@),
            SearchErrorKind::InvalidPropOperator(t) => SearchErrorKindView::InvalidPropOperator(t@),
            SearchErrorKind::InvalidPropFloat(t) => SearchErrorKindView::InvalidPropFloat(t@),
            SearchErrorKind::InvalidPropInteger(t) => SearchErrorKindView::InvalidPropInteger(t@),
            SearchErrorKind::InvalidPropUnsigned(t) => SearchErrorKindView::InvalidPropUnsigned(t@),
        }
    }
}

/// A refusal and the place in the query that it is about.
#[derive(Debug, PartialEq, Clone)]
pub struct ParseError {
    /// The index of the character at which the refused group, quote,
    /// sequence or term began.
    pub position: usize,
    pub kind: SearchErrorKind,
}

/// View of a [`ParseError`].
pub struct ParseErrorView {
    pub position: int,
    pub kind: SearchErrorKindView,
}

impl View for ParseError {
    type V = ParseErrorView;

    open spec fn view(&self) -> ParseErrorView {
        ParseErrorView { position: self.position as int, kind: self.kind@ }
    }
}

/// How a rule of the grammar can fail at a position of the input.
#[derive(Debug, PartialEq)]
pub enum Failure {
    /// The rule does not apply here; another one may.
    Backtrack,
    /// The query is refused. `position` is the index of the character at
    /// which the refused group, quote, sequence or term began.
    Abort { position: usize, kind: SearchErrorKind },
}

/// What a rule of the grammar yields at a position of the input.
pub enum Outcome<T> {
    /// The rule applies and ends before `next`.
    Done { next: int, value: T },
    /// The rule does not apply here; another one may.
    Backtrack,
    /// The query is refused, for what began at `position`.
    Abort { position: int, kind: SearchErrorKindView },
}

/// The outcome that an executable rule's result stands for.
pub open spec fn outcome_of<T: View>(r: Result<(usize, T), Failure>) -> Outcome<T::V> {
    match r {
        Ok((next, value)) => Outcome::Done { next: next as int, value: value@ },
        Err(Failure::Backtrack) => Outcome::Backtrack,
        Err(Failure::Abort { position, kind }) => Outcome::Abort {
            position: position as int,
            kind: kind@,
        },
    }
}

/// The view of a result whose two sides have views.
pub open spec fn result_view<T: View, E: View>(r: Result<T, E>) -> Result<T::V, E::V> {
    match r {
        Ok(value) => Ok(value@),
        Err(error) => Err(error@),
    }
}

} // verus!
