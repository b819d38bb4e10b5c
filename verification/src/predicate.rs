//! The criteria of a query: what a term, or a key and its value, stands for.

use crate::ast::DeckID;
use crate::ast::EaseKind;
use crate::ast::NoteTypeID;
use crate::ast::SearchNode;
use crate::ast::SearchNodeView;
use crate::ast::StateKind;
use crate::ast::TemplateKind;
use crate::ast::TemplateKindView;
use crate::error::result_view;
use crate::error::SearchErrorKind;
use crate::error::SearchErrorKindView;
use crate::escape::quotes_and_backslashes_unescaped;
use crate::escape::quotes_unescaped;
use crate::escape::unescape;
use crate::escape::unescape_quotes_and_backslashes_in;
use crate::escape::unescape_quotes_in;
use crate::escape::unescaped;
use crate::lexical::run;
use crate::lexical::scan_run;
use crate::lexical::Delimiters;
use crate::lexical::Run;
use crate::lexical::Scan;
use crate::number::i64_value;
use crate::number::int_string;
use crate::number::int_text;
use crate::number::parse_i64;
use crate::number::parse_u16;
use crate::number::parse_u32;
use crate::number::parse_u8;
use crate::number::u16_value;
use crate::number::u32_value;
use crate::number::u8_value;
use crate::pattern::regex_is_match;
use crate::pattern::regex_match;
use crate::property::parse_prop;
use crate::property::property_node;
use crate::text::eq_ignore_case;
use crate::text::find_char;
use crate::text::index_of;
use crate::text::is_word;
use crate::text::is_word_ignore_case;
use crate::text::starts_with;
use crate::text::string_of;
use vstd::prelude::*;
use vstd::slice::slice_subrange;
use vstd::string::StrSliceExecFns;
use vstd::string::StringExecFns;

verus! {

/// The regular expression that a list of identifiers matches: numbers with
/// one comma between each two.
pub const ID_LIST_PATTERN: &'static str = r"^(\d+,)*\d+$";

/// The result of a criterion whose value is text with escapes: the resolved
/// text, wrapped by `make`.
pub open spec fn with_text(val: Seq<char>, make: spec_fn(Seq<char>) -> SearchNodeView) -> Result<
    SearchNodeView,
    SearchErrorKindView,
> {
    match unescaped(val) {
        Ok(text) => Ok(make(text)),
        Err(e) => Err(e),
    }
}

/// The larger of `days` and 1.
pub open spec fn at_least_one(days: u32) -> u32 {
    if days < 1 {
        1
    } else {
        days
    }
}

/// `card:`: a number is the position of a template, counted from 1 in the
/// query and from 0 in the result; 0 stands for the first as 1 does. Anything
/// else is the name of a template.
pub open spec fn template_node(s: Seq<char>) -> Result<SearchNodeView, SearchErrorKindView> {
    match u16_value(s) {
        Some(n) => Ok(
            SearchNodeView::CardTemplate(
                TemplateKindView::Ordinal(
                    if n == 0 {
                        0
                    } else {
                        (n - 1) as u16
                    },
                ),
            ),
        ),
        None => with_text(
            s,
            |name: Seq<char>| SearchNodeView::CardTemplate(TemplateKindView::Name(name)),
        ),
    }
}

/// `flag:`: a number from 0 to 4.
pub open spec fn flag_node(s: Seq<char>) -> Result<SearchNodeView, SearchErrorKindView> {
    match u8_value(s) {
        Some(flag) if flag <= 4 => Ok(SearchNodeView::Flag(flag)),
        _ => Err(SearchErrorKindView::InvalidFlag),
    }
}

/// `resched:`: a number of days.
pub open spec fn resched_node(s: Seq<char>) -> Result<SearchNodeView, SearchErrorKindView> {
    match u32_value(s) {
        Some(days) => Ok(SearchNodeView::Rated { days, ease: EaseKind::ManualReschedule }),
        None => Err(SearchErrorKindView::InvalidResched),
    }
}

/// `added:`: a number of days, at least 1.
pub open spec fn added_node(s: Seq<char>) -> Result<SearchNodeView, SearchErrorKindView> {
    match u32_value(s) {
        Some(days) => Ok(SearchNodeView::AddedInDays(at_least_one(days))),
        None => Err(SearchErrorKindView::InvalidAdded),
    }
}

/// `edited:`: a number of days, at least 1.
pub open spec fn edited_node(s: Seq<char>) -> Result<SearchNodeView, SearchErrorKindView> {
    match u32_value(s) {
        Some(days) => Ok(SearchNodeView::EditedInDays(at_least_one(days))),
        None => Err(SearchErrorKindView::InvalidEdited),
    }
}

/// `rated:`: a number of days, at least 1, and after an optional `:` an
/// answer button from 1 to 4.
pub open spec fn rated_node(s: Seq<char>) -> Result<SearchNodeView, SearchErrorKindView> {
    let cut = index_of(s, ':');
    match u32_value(s.take(cut)) {
        None => Err(SearchErrorKindView::InvalidRatedDays),
        Some(n) => {
            let days = at_least_one(n);
            if cut == s.len() {
                Ok(SearchNodeView::Rated { days, ease: EaseKind::AnyAnswerButton })
            } else {
                match u8_value(s.skip(cut + 1)) {
                    Some(button) if 0 < button && button < 5 => Ok(
                        SearchNodeView::Rated { days, ease: EaseKind::AnswerButton(button) },
                    ),
                    _ => Err(
                        SearchErrorKindView::InvalidRatedEase("rated:"@ + int_text(days as int)),
                    ),
                }
            }
        },
    }
}

/// The state that `s` names.
pub open spec fn state_named(s: Seq<char>) -> Option<StateKind> {
    if s == "new"@ {
        Some(StateKind::New)
    } else if s == "review"@ {
        Some(StateKind::Review)
    } else if s == "learn"@ {
        Some(StateKind::Learning)
    } else if s == "due"@ {
        Some(StateKind::Due)
    } else if s == "buried"@ {
        Some(StateKind::Buried)
    } else if s == "buried-manually"@ {
        Some(StateKind::UserBuried)
    } else if s == "buried-sibling"@ {
        Some(StateKind::SchedBuried)
    } else if s == "suspended"@ {
        Some(StateKind::Suspended)
    } else {
        None
    }
}

/// `is:`: the name of a state, in lower case.
pub open spec fn state_node(s: Seq<char>) -> Result<SearchNodeView, SearchErrorKindView> {
    match state_named(s) {
        Some(state) => Ok(SearchNodeView::State(state)),
        None => Err(SearchErrorKindView::InvalidState(s)),
    }
}

/// `did:`: the identifier of a deck.
pub open spec fn did_node(s: Seq<char>) -> Result<SearchNodeView, SearchErrorKindView> {
    match i64_value(s) {
        Some(id) => Ok(SearchNodeView::DeckID(DeckID(id))),
        None => Err(SearchErrorKindView::InvalidDid),
    }
}

/// `mid:`: the identifier of a note type.
pub open spec fn mid_node(s: Seq<char>) -> Result<SearchNodeView, SearchErrorKindView> {
    match i64_value(s) {
        Some(id) => Ok(SearchNodeView::NoteTypeID(NoteTypeID(id))),
        None => Err(SearchErrorKindView::InvalidMid),
    }
}

/// A list of identifiers as it was written, where `matched` says that it
/// matches the pattern of such a list.
pub open spec fn id_list_if(matched: Option<bool>, s: Seq<char>) -> Result<
    Seq<char>,
    SearchErrorKindView,
> {
    if matched == Some(true) {
        Ok(s)
    } else {
        Err(SearchErrorKindView::InvalidIdList)
    }
}

/// The value of `nid:` or `cid:` as it was written, where it matches
/// [`ID_LIST_PATTERN`].
pub open spec fn id_list(s: Seq<char>) -> Result<Seq<char>, SearchErrorKindView> {
    id_list_if(regex_match(ID_LIST_PATTERN@, s), s)
}

/// `dupe:`: the identifier of a note type, a comma, and text in which `\"`
/// and `\\` stand for `"` and `\`.
pub open spec fn dupe_node(s: Seq<char>) -> Result<SearchNodeView, SearchErrorKindView> {
    let cut = index_of(s, ',');
    match i64_value(s.take(cut)) {
        None => Err(SearchErrorKindView::InvalidDupeMid),
        Some(id) => if cut < s.len() {
            Ok(
                SearchNodeView::Duplicates {
                    note_type_id: NoteTypeID(id),
                    text: quotes_and_backslashes_unescaped(s.skip(cut + 1)),
                },
            )
        } else {
            Err(SearchErrorKindView::InvalidDupeText)
        },
    }
}

/// A key that is none of the known ones names a field. After `re:` the value
/// is a regular expression, in which only `\"` is resolved.
pub open spec fn single_field_node(key: Seq<char>, val: Seq<char>) -> Result<
    SearchNodeView,
    SearchErrorKindView,
> {
    match unescaped(key) {
        Err(e) => Err(e),
        Ok(field) => if "re:"@.is_prefix_of(val) {
            Ok(
                SearchNodeView::SingleField {
                    field,
                    text: quotes_unescaped(val.skip("re:"@.len() as int)),
                    is_re: true,
                },
            )
        } else {
            match unescaped(val) {
                Ok(text) => Ok(SearchNodeView::SingleField { field, text, is_re: false }),
                Err(e) => Err(e),
            }
        },
    }
}

/// What `key:val` stands for. The key is compared without regard to the case
/// of its ASCII letters.
pub open spec fn argument_node(key: Seq<char>, val: Seq<char>) -> Result<
    SearchNodeView,
    SearchErrorKindView,
> {
    if eq_ignore_case(key, "deck"@) {
        with_text(val, |t: Seq<char>| SearchNodeView::Deck(t))
    } else if eq_ignore_case(key, "note"@) {
        with_text(val, |t: Seq<char>| SearchNodeView::NoteType(t))
    } else if eq_ignore_case(key, "tag"@) {
        with_text(val, |t: Seq<char>| SearchNodeView::Tag(t))
    } else if eq_ignore_case(key, "card"@) {
        template_node(val)
    } else if eq_ignore_case(key, "flag"@) {
        flag_node(val)
    } else if eq_ignore_case(key, "resched"@) {
        resched_node(val)
    } else if eq_ignore_case(key, "prop"@) {
        property_node(val)
    } else if eq_ignore_case(key, "added"@) {
        added_node(val)
    } else if eq_ignore_case(key, "edited"@) {
        edited_node(val)
    } else if eq_ignore_case(key, "rated"@) {
        rated_node(val)
    } else if eq_ignore_case(key, "is"@) {
        state_node(val)
    } else if eq_ignore_case(key, "did"@) {
        did_node(val)
    } else if eq_ignore_case(key, "mid"@) {
        mid_node(val)
    } else if eq_ignore_case(key, "nid"@) {
        match id_list(val) {
            Ok(ids) => Ok(SearchNodeView::NoteIDs(ids)),
            Err(e) => Err(e),
        }
    } else if eq_ignore_case(key, "cid"@) {
        match id_list(val) {
            Ok(ids) => Ok(SearchNodeView::CardIDs(ids)),
            Err(e) => Err(e),
        }
    } else if eq_ignore_case(key, "re"@) {
        Ok(SearchNodeView::Regex(quotes_unescaped(val)))
    } else if eq_ignore_case(key, "nc"@) {
        with_text(val, |t: Seq<char>| SearchNodeView::NoCombining(t))
    } else if eq_ignore_case(key, "w"@) {
        with_text(val, |t: Seq<char>| SearchNodeView::WordBoundary(t))
    } else if eq_ignore_case(key, "dupe"@) {
        dupe_node(val)
    } else {
        single_field_node(key, val)
    }
}

/// What the term `s` stands for. Up to the first `:` that no backslash
/// escapes it is a key, and the rest is the key's value; without such a `:` it
/// is text to be found anywhere. The key is not empty.
pub open spec fn text_node(s: Seq<char>) -> Result<SearchNodeView, SearchErrorKindView> {
    match run(s, 0, Delimiters::Colon) {
        Run::Ends(end) => if end == 0 {
            Err(SearchErrorKindView::MissingKey)
        } else if end >= s.len() {
            with_text(s, |t: Seq<char>| SearchNodeView::UnqualifiedText(t))
        } else {
            argument_node(s.take(end), s.skip(end + 1))
        },
        _ => Err(SearchErrorKindView::MissingKey),
    }
}

/// Reads the value of `card:`.
pub fn parse_template(s: &[char]) -> (r: Result<SearchNode, SearchErrorKind>)
    ensures
        result_view(r) == template_node(s@),
{
    match parse_u16(s) {
        Some(n) => Ok(
            SearchNode::CardTemplate(
                TemplateKind::Ordinal(
                    if n == 0 {
                        0
                    } else {
                        n - 1
                    },
                ),
            ),
        ),
        None => match unescape(s) {
            Ok(name) => Ok(SearchNode::CardTemplate(TemplateKind::Name(name))),
            Err(e) => Err(e),
        },
    }
}

/// Reads the value of `flag:`.
pub fn parse_flag(s: &[char]) -> (r: Result<SearchNode, SearchErrorKind>)
    ensures
        result_view(r) == flag_node(s@),
{
    match parse_u8(s) {
        Some(flag) => {
            if flag > 4 {
                Err(SearchErrorKind::InvalidFlag)
            } else {
                Ok(SearchNode::Flag(flag))
            }
        },
        None => Err(SearchErrorKind::InvalidFlag),
    }
}

/// Reads the value of `resched:`.
pub fn parse_resched(s: &[char]) -> (r: Result<SearchNode, SearchErrorKind>)
    ensures
        result_view(r) == resched_node(s@),
{
    match parse_u32(s) {
        Some(days) => Ok(SearchNode::Rated { days, ease: EaseKind::ManualReschedule }),
        None => Err(SearchErrorKind::InvalidResched),
    }
}

/// Reads the value of `added:`.
pub fn parse_added(s: &[char]) -> (r: Result<SearchNode, SearchErrorKind>)
    ensures
        result_view(r) == added_node(s@),
{
    match parse_u32(s) {
        Some(days) => Ok(
            SearchNode::AddedInDays(
                if days < 1 {
                    1
                } else {
                    days
                },
            ),
        ),
        None => Err(SearchErrorKind::InvalidAdded),
    }
}

/// Reads the value of `edited:`.
pub fn parse_edited(s: &[char]) -> (r: Result<SearchNode, SearchErrorKind>)
    ensures
        result_view(r) == edited_node(s@),
{
    match parse_u32(s) {
        Some(days) => Ok(
            SearchNode::EditedInDays(
                if days < 1 {
                    1
                } else {
                    days
                },
            ),
        ),
        None => Err(SearchErrorKind::InvalidEdited),
    }
}

/// Reads the value of `rated:`, such as `3` or `10:2`.
pub fn parse_rated(s: &[char]) -> (r: Result<SearchNode, SearchErrorKind>)
    ensures
        result_view(r) == rated_node(s@),
{
    let cut = find_char(s, ':');
    let days: u32 = match parse_u32(slice_subrange(s, 0, cut)) {
        Some(n) => if n < 1 {
            1
        } else {
            n
        },
        None => {
            return Err(SearchErrorKind::InvalidRatedDays);
        },
    };
    if cut == s.len() {
        return Ok(SearchNode::Rated { days, ease: EaseKind::AnyAnswerButton });
    }
    match parse_u8(slice_subrange(s, cut + 1, s.len())) {
        Some(button) if 0 < button && button < 5 => Ok(
            SearchNode::Rated { days, ease: EaseKind::AnswerButton(button) },
        ),
        _ => {
            let mut shown = String::from_str("rated:");
            let number = int_string(days as i64);
            shown.append(number.as_str());
            Err(SearchErrorKind::InvalidRatedEase(shown))
        },
    }
}

/// Reads the value of `is:`.
pub fn parse_state(s: &[char]) -> (r: Result<SearchNode, SearchErrorKind>)
    ensures
        result_view(r) == state_node(s@),
{
    let state = if is_word(s, "new") {
        StateKind::New
    } else if is_word(s, "review") {
        StateKind::Review
    } else if is_word(s, "learn") {
        StateKind::Learning
    } else if is_word(s, "due") {
        StateKind::Due
    } else if is_word(s, "buried") {
        StateKind::Buried
    } else if is_word(s, "buried-manually") {
        StateKind::UserBuried
    } else if is_word(s, "buried-sibling") {
        StateKind::SchedBuried
    } else if is_word(s, "suspended") {
        StateKind::Suspended
    } else {
        return Err(SearchErrorKind::InvalidState(string_of(s)));
    };
    Ok(SearchNode::State(state))
}

/// Reads the value of `did:`.
pub fn parse_did(s: &[char]) -> (r: Result<SearchNode, SearchErrorKind>)
    ensures
        result_view(r) == did_node(s@),
{
    match parse_i64(s) {
        Some(id) => Ok(SearchNode::DeckID(DeckID(id))),
        None => Err(SearchErrorKind::InvalidDid),
    }
}

/// Reads the value of `mid:`.
pub fn parse_mid(s: &[char]) -> (r: Result<SearchNode, SearchErrorKind>)
    ensures
        result_view(r) == mid_node(s@),
{
    match parse_i64(s) {
        Some(id) => Ok(SearchNode::NoteTypeID(NoteTypeID(id))),
        None => Err(SearchErrorKind::InvalidMid),
    }
}

/// Accepts the list of identifiers `s` where `matched` says that it matches
/// the pattern of such a list, and hands it back as it was written.
pub fn id_list_checked(matched: Option<bool>, s: String) -> (r: Result<String, SearchErrorKind>)
    ensures
        result_view(r) == id_list_if(matched, s@),
{
    match matched {
        Some(true) => Ok(s),
        _ => Err(SearchErrorKind::InvalidIdList),
    }
}

/// Accepts a list of numbers with one comma between each two, and hands it
/// back as it was written.
pub fn check_id_list(s: &[char]) -> (r: Result<String, SearchErrorKind>)
    ensures
        result_view(r) == id_list(s@),
{
    let text = string_of(s);
    let matched = regex_is_match(ID_LIST_PATTERN, text.as_str());
    id_list_checked(matched, text)
}

/// Reads the value of `dupe:`, such as `1231,hello`.
pub fn parse_dupe(s: &[char]) -> (r: Result<SearchNode, SearchErrorKind>)
    ensures
        result_view(r) == dupe_node(s@),
{
    let cut = find_char(s, ',');
    match parse_i64(slice_subrange(s, 0, cut)) {
        Some(id) => {
            if cut < s.len() {
                let text = unescape_quotes_and_backslashes_in(slice_subrange(s, cut + 1, s.len()));
                Ok(SearchNode::Duplicates { note_type_id: NoteTypeID(id), text })
            } else {
                Err(SearchErrorKind::InvalidDupeText)
            }
        },
        None => Err(SearchErrorKind::InvalidDupeMid),
    }
}

/// Reads a key that is none of the known ones, and its value.
pub fn parse_single_field(key: &[char], val: &[char]) -> (r: Result<SearchNode, SearchErrorKind>)
    ensures
        result_view(r) == single_field_node(key@, val@),
{
    let field = match unescape(key) {
        Ok(field) => field,
        Err(e) => {
            return Err(e);
        },
    };
    if starts_with(val, "re:") {
        let body = slice_subrange(val, "re:".unicode_len(), val.len());
        Ok(SearchNode::SingleField { field, text: unescape_quotes_in(body), is_re: true })
    } else {
        match unescape(val) {
            Ok(text) => Ok(SearchNode::SingleField { field, text, is_re: false }),
            Err(e) => Err(e),
        }
    }
}

/// Turns a key and its value into the criterion that they stand for.
pub fn search_node_for_text_with_argument(key: &[char], val: &[char]) -> (r: Result<
    SearchNode,
    SearchErrorKind,
>)
    ensures
        result_view(r) == argument_node(key@, val@),
{
    if is_word_ignore_case(key, "deck") {
        match unescape(val) {
            Ok(t) => Ok(SearchNode::Deck(t)),
            Err(e) => Err(e),
        }
    } else if is_word_ignore_case(key, "note") {
        match unescape(val) {
            Ok(t) => Ok(SearchNode::NoteType(t)),
            Err(e) => Err(e),
        }
    } else if is_word_ignore_case(key, "tag") {
        match unescape(val) {
            Ok(t) => Ok(SearchNode::Tag(t)),
            Err(e) => Err(e),
        }
    } else if is_word_ignore_case(key, "card") {
        parse_template(val)
    } else if is_word_ignore_case(key, "flag") {
        parse_flag(val)
    } else if is_word_ignore_case(key, "resched") {
        parse_resched(val)
    } else if is_word_ignore_case(key, "prop") {
        parse_prop(val)
    } else if is_word_ignore_case(key, "added") {
        parse_added(val)
    } else if is_word_ignore_case(key, "edited") {
        parse_edited(val)
    } else if is_word_ignore_case(key, "rated") {
        parse_rated(val)
    } else if is_word_ignore_case(key, "is") {
        parse_state(val)
    } else if is_word_ignore_case(key, "did") {
        parse_did(val)
    } else if is_word_ignore_case(key, "mid") {
        parse_mid(val)
    } else if is_word_ignore_case(key, "nid") {
        match check_id_list(val) {
            Ok(ids) => Ok(SearchNode::NoteIDs(ids)),
            Err(e) => Err(e),
        }
    } else if is_word_ignore_case(key, "cid") {
        match check_id_list(val) {
            Ok(ids) => Ok(SearchNode::CardIDs(ids)),
            Err(e) => Err(e),
        }
    } else if is_word_ignore_case(key, "re") {
        Ok(SearchNode::Regex(unescape_quotes_in(val)))
    } else if is_word_ignore_case(key, "nc") {
        match unescape(val) {
            Ok(t) => Ok(SearchNode::NoCombining(t)),
            Err(e) => Err(e),
        }
    } else if is_word_ignore_case(key, "w") {
        match unescape(val) {
            Ok(t) => Ok(SearchNode::WordBoundary(t)),
            Err(e) => Err(e),
        }
    } else if is_word_ignore_case(key, "dupe") {
        parse_dupe(val)
    } else {
        parse_single_field(key, val)
    }
}

/// Turns a term into the criterion that it stands for: text to be found
/// anywhere, or a key and its value.
pub fn search_node_for_text(s: &[char]) -> (r: Result<SearchNode, SearchErrorKind>)
    ensures
        result_view(r) == text_node(s@),
{
    match scan_run(s, 0, Delimiters::Colon) {
        Scan::Ends(end) => {
            if end == 0 {
                Err(SearchErrorKind::MissingKey)
            } else if end >= s.len() {
                match unescape(s) {
                    Ok(t) => Ok(SearchNode::UnqualifiedText(t)),
                    Err(e) => Err(e),
                }
            } else {
                search_node_for_text_with_argument(
                    slice_subrange(s, 0, end),
                    slice_subrange(s, end + 1, s.len()),
                )
            }
        },
        _ => Err(SearchErrorKind::MissingKey),
    }
}

} // verus!
