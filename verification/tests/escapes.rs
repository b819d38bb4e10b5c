use search_query::escape::invalid_escape_sequence;
use search_query::escape::is_parser_escape;
use search_query::escape::unescape;
use search_query::unescape_quotes;
use search_query::unescape_quotes_and_backslashes;
use search_query::SearchErrorKind;

fn chars(s: &str) -> Vec<char> {
    s.chars().collect()
}

const TEXTS: [&str; 36] = [
    "",
    "plain",
    r"\",
    r"\\",
    r"\\\",
    r"\\\\",
    r"a\",
    r"a\\",
    r"\a",
    r"\\a",
    r"\\\a",
    r#"\""#,
    r"\:",
    r"\(",
    r"\)",
    r"\-",
    r"\*",
    r"\_",
    r"\%",
    r"\ ",
    "\\\n",
    r"a\:b\%c",
    r"a\%b\&c",
    r"\\%",
    r"\\\%",
    r"x\\\\\y",
    r"\*\_\\\:",
    r#"\"\:\(\)\-"#,
    r"\\\*\_",
    r"é\é",
    r"\é",
    r"a\:\",
    r"::\\::",
    r"\b\d",
    r"-\-",
    r"*_",
];

#[test]
fn unknown_escapes_are_those_of_the_pattern() {
    let pattern =
        regex::Regex::new(r#"(?:^|[^\\])(?:\\\\)*(\\(?:[^\\":*_()-]|$))"#).unwrap();
    for text in TEXTS {
        let expected = pattern.captures(text).map(|found| found[1].to_string());
        assert_eq!(invalid_escape_sequence(&chars(text)), expected, "{:?}", text);
    }
}

#[test]
fn escapes_resolve_as_the_pattern_replaces_them() {
    let pattern = regex::Regex::new(r#"\\[\\":()-]"#).unwrap();
    for text in TEXTS {
        if invalid_escape_sequence(&chars(text)).is_some() {
            continue;
        }
        let expected = pattern.replace_all(text, |found: &regex::Captures| found[0][1..].to_string());
        assert_eq!(unescape(&chars(text)), Ok(expected.into_owned()), "{:?}", text);
    }
}

#[test]
fn unknown_escape_is_named() {
    assert_eq!(invalid_escape_sequence(&chars(r"ab\cd")), Some(r"\c".to_string()));
    assert_eq!(invalid_escape_sequence(&chars(r"ab\")), Some(r"\".to_string()));
    assert_eq!(invalid_escape_sequence(&chars(r"ab\\")), None);
    assert_eq!(invalid_escape_sequence(&chars(r"a\%b\&")), Some(r"\%".to_string()));
    assert_eq!(
        unescape(&chars(r"a\:b\%")),
        Err(SearchErrorKind::UnknownEscape(r"\%".to_string()))
    );
}

#[test]
fn parser_characters_lose_their_backslash() {
    assert_eq!(unescape(&chars(r#"\""#)), Ok("\"".to_string()));
    assert_eq!(unescape(&chars(r"\:")), Ok(":".to_string()));
    assert_eq!(unescape(&chars(r"\(")), Ok("(".to_string()));
    assert_eq!(unescape(&chars(r"\)")), Ok(")".to_string()));
    assert_eq!(unescape(&chars(r"\-")), Ok("-".to_string()));
    assert_eq!(unescape(&chars(r"\\")), Ok(r"\".to_string()));
    assert_eq!(unescape(&chars(r"a\:b\\c\-d")), Ok(r"a:b\c-d".to_string()));
    assert_eq!(unescape(&chars(r"\\\\")), Ok(r"\\".to_string()));
    assert_eq!(unescape(&chars(r"\\:")), Ok(r"\:".to_string()));
}

#[test]
fn wildcards_keep_their_backslash() {
    assert_eq!(unescape(&chars(r"\*")), Ok(r"\*".to_string()));
    assert_eq!(unescape(&chars(r"\_")), Ok(r"\_".to_string()));
    assert_eq!(unescape(&chars(r"a\*b\_c")), Ok(r"a\*b\_c".to_string()));
    assert_eq!(unescape(&chars(r"\*\:")), Ok(r"\*:".to_string()));
}

#[test]
fn text_without_escapes_is_unchanged() {
    assert_eq!(unescape(&chars("")), Ok("".to_string()));
    assert_eq!(unescape(&chars("a b:c(d)-e*_")), Ok("a b:c(d)-e*_".to_string()));
}

#[test]
fn parser_escapes_are_found() {
    assert!(is_parser_escape(&chars(r"a\:b")));
    assert!(is_parser_escape(&chars(r"\\")));
    assert!(is_parser_escape(&chars(r"\*\-")));
    assert!(!is_parser_escape(&chars(r"a:b")));
    assert!(!is_parser_escape(&chars(r"\*\_")));
    assert!(!is_parser_escape(&chars("")));
}

#[test]
fn quotes_are_unescaped() {
    assert_eq!(unescape_quotes(r#"te\"st"#), r#"te"st"#);
    assert_eq!(unescape_quotes(r"\btest\%"), r"\btest\%");
    assert_eq!(unescape_quotes(r#"\\"\:"#), r#"\"\:"#);
    assert_eq!(unescape_quotes(r#"\"\"\""#), r#"""""#);
    assert_eq!(unescape_quotes(""), "");
    for text in TEXTS {
        assert_eq!(unescape_quotes(text), text.replace(r#"\""#, "\""), "{:?}", text);
    }
}

#[test]
fn quotes_and_backslashes_are_unescaped() {
    assert_eq!(unescape_quotes_and_backslashes(r#"he\"llo\\"#), r#"he"llo\"#);
    assert_eq!(unescape_quotes_and_backslashes(r"\\\\"), r"\\");
    assert_eq!(unescape_quotes_and_backslashes(r"\\\"), r"\\");
    assert_eq!(unescape_quotes_and_backslashes(r"\:\*"), r"\:\*");
    assert_eq!(unescape_quotes_and_backslashes(r#"\\""#), r#"\""#);
    for text in TEXTS {
        assert_eq!(
            unescape_quotes_and_backslashes(text),
            text.replace(r#"\""#, "\"").replace(r"\\", r"\"),
            "{:?}",
            text
        );
    }
}
