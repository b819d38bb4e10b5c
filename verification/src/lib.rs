//! A parser for flashcard search queries.
//!
//! A query such as `deck:french -(is:new or tag:hard) "two words"` is turned
//! into a sequence of [`Node`]s in which operands and boolean operators
//! alternate. Every rule of the grammar has a specification over sequences of
//! characters, and the executable rule is proved to compute it.
//!
//! - [`grammar`] holds the rules for terms, negation, groups and sequences,
//!   and [`parse`], the entry point.
//! - [`lexical`] holds the rules below them: spaces, runs of text with
//!   escapes, and quoted text.
//! - [`predicate`] and [`property`] say what a term, or a key and its value,
//!   stands for.
//! - [`escape`] says which backslash escapes a text may hold and what they
//!   resolve to.
//! - [`number`] reads and writes decimal numbers.
//! - [`pattern`] matches text against a regular expression.
//! - [`laws`] proves what holds of every query.

pub mod ast;
pub mod error;
pub mod escape;
pub mod grammar;
pub mod laws;
pub mod lexical;
pub mod number;
pub mod pattern;
pub mod predicate;
pub mod property;
pub mod text;

pub use ast::DeckID;
pub use ast::EaseKind;
pub use ast::Node;
pub use ast::NoteTypeID;
pub use ast::PropertyKind;
pub use ast::SearchNode;
pub use ast::StateKind;
pub use ast::TemplateKind;
pub use error::ParseError;
pub use error::SearchErrorKind;
pub use escape::unescape_quotes;
pub use escape::unescape_quotes_and_backslashes;
pub use grammar::parse;
pub use grammar::parse_chars;
