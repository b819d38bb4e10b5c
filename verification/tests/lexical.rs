use nom::bytes::complete::escaped;
use nom::bytes::complete::is_not;
use nom::character::complete::anychar;
use nom::character::complete::none_of;
use nom::error::ErrorKind;
use search_query::error::Failure;
use search_query::lexical::quoted_term_str;
use search_query::lexical::scan_run;
use search_query::lexical::whitespace0;
use search_query::lexical::Delimiters;
use search_query::lexical::Scan;
use search_query::SearchErrorKind;

fn chars(s: &str) -> Vec<char> {
    s.chars().collect()
}

const TEXTS: [&str; 40] = [
    "",
    "a",
    "abc",
    "abc def",
    "abc\u{3000}def",
    " abc",
    "\u{3000}abc",
    "(abc",
    ")abc",
    "\"abc",
    ":abc",
    "abc:def",
    "abc\"def",
    "abc(def",
    "abc)def",
    r"\",
    r"abc\",
    r"\\",
    r"abc\\",
    r"abc\\\",
    r"\ abc",
    r"abc\ def",
    "abc\\\u{3000}def",
    r"abc\:def ghi",
    r#"abc\"def"ghi"#,
    r"abc\(def\)ghi)",
    r"a\\:b",
    r"a\\\:b",
    r#"a\\"b"#,
    r"-abc",
    r"\-abc",
    "é\u{3000}",
    r"é\é é",
    "tab\there",
    r"a\",
    r"\a",
    r"\\ a",
    r"\\\ a",
    "a\\",
    r#"":()"#,
];

fn expected(
    found: Result<(&str, &str), nom::Err<(&str, ErrorKind)>>,
    text: &str,
    delimiters: &str,
) -> Scan {
    match found {
        Ok((_, taken)) => Scan::Ends(taken.chars().count()),
        Err(nom::Err::Error((rest, ErrorKind::NoneOf))) => {
            Scan::Refused(text.chars().count() - rest.chars().count())
        }
        Err(_) => {
            if text.starts_with(|c| delimiters.contains(c)) {
                Scan::Nothing
            } else {
                Scan::Dangling
            }
        }
    }
}

#[test]
fn key_runs_are_those_of_the_combinator() {
    for text in TEXTS {
        let found = escaped(is_not("\"(): \u{3000}\\"), '\\', none_of(" \u{3000}"))(text);
        let scan = scan_run(&chars(text), 0, Delimiters::Key);
        assert_eq!(scan, expected(found, text, "\"(): \u{3000}"), "{:?}", text);
    }
}

#[test]
fn term_runs_are_those_of_the_combinator() {
    for text in TEXTS {
        let found = escaped(is_not("\"() \u{3000}\\"), '\\', none_of(" \u{3000}"))(text);
        let scan = scan_run(&chars(text), 0, Delimiters::Term);
        assert_eq!(scan, expected(found, text, "\"() \u{3000}"), "{:?}", text);
    }
}

#[test]
fn quoted_runs_are_those_of_the_combinator() {
    for text in TEXTS {
        let found = escaped(is_not("\"\\"), '\\', anychar)(text);
        let scan = scan_run(&chars(text), 0, Delimiters::Quote);
        assert_eq!(scan, expected(found, text, "\""), "{:?}", text);
    }
}

#[test]
fn runs_up_to_a_colon_are_those_of_the_combinator() {
    for text in TEXTS {
        let found = escaped(is_not(":\\"), '\\', anychar)(text);
        let scan = scan_run(&chars(text), 0, Delimiters::Colon);
        assert_eq!(scan, expected(found, text, ":"), "{:?}", text);
    }
}

#[test]
fn a_run_ends_before_the_first_free_delimiter() {
    assert_eq!(scan_run(&chars("abc def"), 0, Delimiters::Term), Scan::Ends(3));
    assert_eq!(scan_run(&chars("abc def"), 4, Delimiters::Term), Scan::Ends(7));
    assert_eq!(scan_run(&chars("abc:def"), 0, Delimiters::Term), Scan::Ends(7));
    assert_eq!(scan_run(&chars("abc:def"), 0, Delimiters::Key), Scan::Ends(3));
    assert_eq!(scan_run(&chars(r"a\:c:def"), 0, Delimiters::Key), Scan::Ends(4));
    assert_eq!(scan_run(&chars(r"a\\:def"), 0, Delimiters::Colon), Scan::Ends(3));
    assert_eq!(scan_run(&chars(r#"a\"b"c"#), 0, Delimiters::Quote), Scan::Ends(4));
    assert_eq!(scan_run(&chars("a b"), 0, Delimiters::Quote), Scan::Ends(3));
    assert_eq!(scan_run(&chars(""), 0, Delimiters::Term), Scan::Ends(0));
    assert_eq!(scan_run(&chars("abc"), 3, Delimiters::Term), Scan::Ends(3));
}

#[test]
fn a_run_can_fail_in_three_ways() {
    assert_eq!(scan_run(&chars(" abc"), 0, Delimiters::Term), Scan::Nothing);
    assert_eq!(scan_run(&chars(":abc"), 0, Delimiters::Key), Scan::Nothing);
    assert_eq!(scan_run(&chars(":abc"), 0, Delimiters::Term), Scan::Ends(4));
    assert_eq!(scan_run(&chars(r"abc\"), 0, Delimiters::Term), Scan::Dangling);
    assert_eq!(scan_run(&chars(r"\"), 0, Delimiters::Quote), Scan::Dangling);
    assert_eq!(scan_run(&chars(r"abc\ d"), 0, Delimiters::Term), Scan::Refused(4));
    assert_eq!(scan_run(&chars("abc\\\u{3000}d"), 0, Delimiters::Key), Scan::Refused(4));
    assert_eq!(scan_run(&chars(r"abc\ d"), 0, Delimiters::Quote), Scan::Ends(6));
}

#[test]
fn both_spaces_are_skipped() {
    assert_eq!(whitespace0(&chars("  \u{3000} a "), 0), 4);
    assert_eq!(whitespace0(&chars("a  "), 0), 0);
    assert_eq!(whitespace0(&chars("a  "), 1), 3);
    assert_eq!(whitespace0(&chars("\ta"), 0), 0);
    assert_eq!(whitespace0(&chars(""), 0), 0);
}

#[test]
fn quoted_text_is_what_stands_between_the_quotes() {
    let input = chars(r#"x "a \" b" y"#);
    let inner = chars(r#"a \" b"#);
    assert_eq!(quoted_term_str(&input, 2), Ok((10, &inner[..])));
    assert_eq!(quoted_term_str(&input, 0), Err(Failure::Backtrack));
    assert_eq!(quoted_term_str(&input, 12), Err(Failure::Backtrack));
}

#[test]
fn quotes_must_close_around_something() {
    assert_eq!(
        quoted_term_str(&chars(r#"a """#), 2),
        Err(Failure::Abort { position: 2, kind: SearchErrorKind::EmptyQuote })
    );
    assert_eq!(
        quoted_term_str(&chars(r#""abc"#), 0),
        Err(Failure::Abort { position: 0, kind: SearchErrorKind::UnclosedQuote })
    );
    assert_eq!(
        quoted_term_str(&chars(r#"""#), 0),
        Err(Failure::Abort { position: 0, kind: SearchErrorKind::UnclosedQuote })
    );
    assert_eq!(
        quoted_term_str(&chars(r#""abc\"#), 0),
        Err(Failure::Abort { position: 0, kind: SearchErrorKind::UnclosedQuote })
    );
    assert_eq!(
        quoted_term_str(&chars(r#""abc\""#), 0),
        Err(Failure::Abort { position: 0, kind: SearchErrorKind::UnclosedQuote })
    );
}

fn short_texts() -> Vec<String> {
    let alphabet = ['a', ' ', '\u{3000}', '"', '(', ')', ':', '\\'];
    let mut texts = vec![String::new()];
    let mut from = 0;
    for _ in 0..5 {
        let upto = texts.len();
        for i in from..upto {
            for c in alphabet {
                let mut longer = texts[i].clone();
                longer.push(c);
                texts.push(longer);
            }
        }
        from = upto;
    }
    texts
}

#[test]
fn runs_of_every_short_text_are_those_of_the_combinator() {
    for text in short_texts() {
        let text = text.as_str();
        let input = chars(text);
        let key = escaped(is_not("\"(): \u{3000}\\"), '\\', none_of(" \u{3000}"))(text);
        assert_eq!(
            scan_run(&input, 0, Delimiters::Key),
            expected(key, text, "\"(): \u{3000}"),
            "{:?}",
            text
        );
        let term = escaped(is_not("\"() \u{3000}\\"), '\\', none_of(" \u{3000}"))(text);
        assert_eq!(
            scan_run(&input, 0, Delimiters::Term),
            expected(term, text, "\"() \u{3000}"),
            "{:?}",
            text
        );
        let quote = escaped(is_not("\"\\"), '\\', anychar)(text);
        assert_eq!(scan_run(&input, 0, Delimiters::Quote), expected(quote, text, "\""), "{:?}", text);
        let colon = escaped(is_not(":\\"), '\\', anychar)(text);
        assert_eq!(scan_run(&input, 0, Delimiters::Colon), expected(colon, text, ":"), "{:?}", text);
    }
}
