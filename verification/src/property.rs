//! The `prop:` criterion: a card property, a comparison and a number.

use crate::ast::EaseKind;
use crate::ast::PropertyKind;
use crate::ast::PropertyKindView;
use crate::ast::SearchNode;
use crate::ast::SearchNodeView;
use crate::error::result_view;
use crate::error::SearchErrorKind;
use crate::error::SearchErrorKindView;
use crate::number::check_float_literal;
use crate::number::i32_value;
use crate::number::int_string;
use crate::number::int_text;
use crate::number::is_float_literal;
use crate::number::parse_i32;
use crate::number::parse_u32;
use crate::number::parse_u8;
use crate::number::u32_value;
use crate::number::u8_value;
use crate::text::find_char;
use crate::text::index_of;
use crate::text::push_chars;
use crate::text::starts_with;
use crate::text::string_of;
use vstd::prelude::*;
use vstd::slice::slice_subrange;
use vstd::string::StrSliceExecFns;
use vstd::string::StringExecFns;

verus! {

/// A property that `prop:` can compare.
#[derive(Debug, PartialEq, Eq, Clone, Copy)]
pub enum PropertyName {
    Interval,
    Due,
    Reps,
    Lapses,
    Ease,
    Position,
    Rated,
    Resched,
}

impl PropertyName {
    /// How the property is written in a query.
    pub open spec fn text(self) -> Seq<char> {
        match self {
            PropertyName::Interval => "ivl"@,
            PropertyName::Due => "due"@,
            PropertyName::Reps => "reps"@,
            PropertyName::Lapses => "lapses"@,
            PropertyName::Ease => "ease"@,
            PropertyName::Position => "pos"@,
            PropertyName::Rated => "rated"@,
            PropertyName::Resched => "resched"@,
        }
    }
}

/// The property whose name `s` begins with.
pub open spec fn leading_property(s: Seq<char>) -> Option<PropertyName> {
    if "ivl"@.is_prefix_of(s) {
        Some(PropertyName::Interval)
    } else if "due"@.is_prefix_of(s) {
        Some(PropertyName::Due)
    } else if "reps"@.is_prefix_of(s) {
        Some(PropertyName::Reps)
    } else if "lapses"@.is_prefix_of(s) {
        Some(PropertyName::Lapses)
    } else if "ease"@.is_prefix_of(s) {
        Some(PropertyName::Ease)
    } else if "pos"@.is_prefix_of(s) {
        Some(PropertyName::Position)
    } else if "rated"@.is_prefix_of(s) {
        Some(PropertyName::Rated)
    } else if "resched"@.is_prefix_of(s) {
        Some(PropertyName::Resched)
    } else {
        None
    }
}

/// The comparison operator that `s` begins with. The two-character
/// operators are tried before `=`, `<` and `>`.
pub open spec fn leading_operator(s: Seq<char>) -> Option<Seq<char>> {
    if "<="@.is_prefix_of(s) {
        Some("<="@)
    } else if ">="@.is_prefix_of(s) {
        Some(">="@)
    } else if "!="@.is_prefix_of(s) {
        Some("!="@)
    } else if "="@.is_prefix_of(s) {
        Some("="@)
    } else if "<"@.is_prefix_of(s) {
        Some("<"@)
    } else if ">"@.is_prefix_of(s) {
        Some(">"@)
    } else {
        None
    }
}

/// The smaller of `days` and 0.
pub open spec fn at_most_zero(days: i32) -> i32 {
    if days < 0 {
        days
    } else {
        0
    }
}

/// What `days` or `days:ease` after `prop:rated` and an operator stands for.
/// `context` is the property and the operator as written.
pub open spec fn rated_property(context: Seq<char>, num: Seq<char>) -> Result<
    PropertyKindView,
    SearchErrorKindView,
> {
    let cut = index_of(num, ':');
    match i32_value(num.take(cut)) {
        None => Err(SearchErrorKindView::InvalidPropInteger(context)),
        Some(i) => {
            let days = at_most_zero(i);
            if cut == num.len() {
                Ok(PropertyKindView::Rated(days, EaseKind::AnyAnswerButton))
            } else {
                match u8_value(num.skip(cut + 1)) {
                    None => Err(SearchErrorKindView::InvalidPropInteger(context)),
                    Some(button) => if 1 <= button && button < 5 {
                        Ok(PropertyKindView::Rated(days, EaseKind::AnswerButton(button)))
                    } else {
                        Err(
                            SearchErrorKindView::InvalidRatedEase(
                                "prop:"@ + context + int_text(days as int),
                            ),
                        )
                    },
                }
            }
        },
    }
}

/// What the number `num` stands for after the property `name` and an
/// operator. `context` is the property and the operator as written.
pub open spec fn property_kind(name: PropertyName, context: Seq<char>, num: Seq<char>) -> Result<
    PropertyKindView,
    SearchErrorKindView,
> {
    match name {
        PropertyName::Ease => if is_float_literal(num) {
            Ok(PropertyKindView::Ease(num))
        } else {
            Err(SearchErrorKindView::InvalidPropFloat(context))
        },
        PropertyName::Due => match i32_value(num) {
            Some(i) => Ok(PropertyKindView::Due(i)),
            None => Err(SearchErrorKindView::InvalidPropInteger(context)),
        },
        PropertyName::Rated => rated_property(context, num),
        PropertyName::Resched => match i32_value(num) {
            Some(i) => Ok(PropertyKindView::Rated(at_most_zero(i), EaseKind::ManualReschedule)),
            None => Err(SearchErrorKindView::InvalidPropInteger(context)),
        },
        _ => match u32_value(num) {
            Some(u) => Ok(
                match name {
                    PropertyName::Interval => PropertyKindView::Interval(u),
                    PropertyName::Reps => PropertyKindView::Reps(u),
                    PropertyName::Lapses => PropertyKindView::Lapses(u),
                    _ => PropertyKindView::Position(u),
                },
            ),
            None => Err(SearchErrorKindView::InvalidPropUnsigned(context)),
        },
    }
}

/// What the value `s` of `prop:` stands for: a property name, a comparison
/// operator and a number of the type that the property has.
pub open spec fn property_node(s: Seq<char>) -> Result<SearchNodeView, SearchErrorKindView> {
    match leading_property(s) {
        None => Err(SearchErrorKindView::InvalidPropProperty(s)),
        Some(name) => {
            let tail = s.skip(name.text().len() as int);
            match leading_operator(tail) {
                None => Err(SearchErrorKindView::InvalidPropOperator(name.text())),
                Some(operator) => {
                    let num = tail.skip(operator.len() as int);
                    match property_kind(name, name.text() + operator, num) {
                        Ok(kind) => Ok(SearchNodeView::Property { operator, kind }),
                        Err(e) => Err(e),
                    }
                },
            }
        },
    }
}

/// The property whose name `s` begins with, and the length of that name.
fn read_property(s: &[char]) -> (r: Option<(PropertyName, usize)>)
    ensures
        match r {
            Some((name, n)) => leading_property(s@) == Some(name) && n == name.text().len(),
            None => leading_property(s@) is None,
        },
{
    if starts_with(s, "ivl") {
        Some((PropertyName::Interval, "ivl".unicode_len()))
    } else if starts_with(s, "due") {
        Some((PropertyName::Due, "due".unicode_len()))
    } else if starts_with(s, "reps") {
        Some((PropertyName::Reps, "reps".unicode_len()))
    } else if starts_with(s, "lapses") {
        Some((PropertyName::Lapses, "lapses".unicode_len()))
    } else if starts_with(s, "ease") {
        Some((PropertyName::Ease, "ease".unicode_len()))
    } else if starts_with(s, "pos") {
        Some((PropertyName::Position, "pos".unicode_len()))
    } else if starts_with(s, "rated") {
        Some((PropertyName::Rated, "rated".unicode_len()))
    } else if starts_with(s, "resched") {
        Some((PropertyName::Resched, "resched".unicode_len()))
    } else {
        None
    }
}

/// The length of the comparison operator that `s` begins with.
fn read_operator(s: &[char]) -> (r: Option<usize>)
    ensures
        match r {
            Some(n) => leading_operator(s@) is Some && n == leading_operator(s@).unwrap().len(),
            None => leading_operator(s@) is None,
        },
{
    if starts_with(s, "<=") {
        Some("<=".unicode_len())
    } else if starts_with(s, ">=") {
        Some(">=".unicode_len())
    } else if starts_with(s, "!=") {
        Some("!=".unicode_len())
    } else if starts_with(s, "=") {
        Some("=".unicode_len())
    } else if starts_with(s, "<") {
        Some("<".unicode_len())
    } else if starts_with(s, ">") {
        Some(">".unicode_len())
    } else {
        None
    }
}

/// Reads `days` or `days:ease` after `prop:rated` and an operator.
fn parse_rated_property(context: &[char], num: &[char]) -> (r: Result<
    PropertyKind,
    SearchErrorKind,
>)
    ensures
        result_view(r) == rated_property(context@, num@),
{
    let cut = find_char(num, ':');
    let first = slice_subrange(num, 0, cut);
    let days: i32 = match parse_i32(first) {
        Some(i) => if i < 0 {
            i
        } else {
            0
        },
        None => {
            return Err(SearchErrorKind::InvalidPropInteger(string_of(context)));
        },
    };
    if cut == num.len() {
        return Ok(PropertyKind::Rated(days, EaseKind::AnyAnswerButton));
    }
    let second = slice_subrange(num, cut + 1, num.len());
    match parse_u8(second) {
        Some(button) => {
            if 1 <= button && button < 5 {
                Ok(PropertyKind::Rated(days, EaseKind::AnswerButton(button)))
            } else {
                let mut shown = String::from_str("prop:");
                push_chars(&mut shown, context);
                let number = int_string(days as i64);
                shown.append(number.as_str());
                Err(SearchErrorKind::InvalidRatedEase(shown))
            }
        },
        None => Err(SearchErrorKind::InvalidPropInteger(string_of(context))),
    }
}

/// Reads the number `num` after the property `name` and an operator.
fn parse_property_kind(name: PropertyName, context: &[char], num: &[char]) -> (r: Result<
    PropertyKind,
    SearchErrorKind,
>)
    ensures
        result_view(r) == property_kind(name, context@, num@),
{
    match name {
        PropertyName::Ease => {
            if check_float_literal(num) {
                Ok(PropertyKind::Ease(string_of(num)))
            } else {
                Err(SearchErrorKind::InvalidPropFloat(string_of(context)))
            }
        },
        PropertyName::Due => match parse_i32(num) {
            Some(i) => Ok(PropertyKind::Due(i)),
            None => Err(SearchErrorKind::InvalidPropInteger(string_of(context))),
        },
        PropertyName::Rated => parse_rated_property(context, num),
        PropertyName::Resched => match parse_i32(num) {
            Some(i) => Ok(
                PropertyKind::Rated(
                    if i < 0 {
                        i
                    } else {
                        0
                    },
                    EaseKind::ManualReschedule,
                ),
            ),
            None => Err(SearchErrorKind::InvalidPropInteger(string_of(context))),
        },
        _ => match parse_u32(num) {
            Some(u) => Ok(
                match name {
                    PropertyName::Interval => PropertyKind::Interval(u),
                    PropertyName::Reps => PropertyKind::Reps(u),
                    PropertyName::Lapses => PropertyKind::Lapses(u),
                    _ => PropertyKind::Position(u),
                },
            ),
            None => Err(SearchErrorKind::InvalidPropUnsigned(string_of(context))),
        },
    }
}

/// Reads the value of `prop:`, such as `ivl>3` or `ease!=2.5`.
pub fn parse_prop(s: &[char]) -> (r: Result<SearchNode, SearchErrorKind>)
    ensures
        result_view(r) == property_node(s@),
{
    let (name, name_len) = match read_property(s) {
        Some(found) => found,
        None => {
            return Err(SearchErrorKind::InvalidPropProperty(string_of(s)));
        },
    };
    let tail = slice_subrange(s, name_len, s.len());
    let operator_len = match read_operator(tail) {
        Some(n) => n,
        None => {
            return Err(
                SearchErrorKind::InvalidPropOperator(string_of(slice_subrange(s, 0, name_len))),
            );
        },
    };
    let operator = slice_subrange(tail, 0, operator_len);
    let context = slice_subrange(s, 0, name_len + operator_len);
    let num = slice_subrange(tail, operator_len, tail.len());
    proof {
        assert(context@ == name.text() + operator@);
    }
    match parse_property_kind(name, context, num) {
        Ok(kind) => Ok(SearchNode::Property { operator: string_of(operator), kind }),
        Err(e) => Err(e),
    }
}

} // verus!
