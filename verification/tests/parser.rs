use search_query::parse;
use search_query::Node::And;
use search_query::Node::Group;
use search_query::Node::Not;
use search_query::Node::Or;
use search_query::Node::Search;
use search_query::PropertyKind;
use search_query::SearchErrorKind;
use search_query::SearchErrorKind::EmptyGroup;
use search_query::SearchErrorKind::EmptyQuote;
use search_query::SearchErrorKind::InvalidAdded;
use search_query::SearchErrorKind::InvalidDupeMid;
use search_query::SearchErrorKind::InvalidDupeText;
use search_query::SearchErrorKind::InvalidEdited;
use search_query::SearchErrorKind::InvalidFlag;
use search_query::SearchErrorKind::InvalidIdList;
use search_query::SearchErrorKind::InvalidPropFloat;
use search_query::SearchErrorKind::InvalidPropInteger;
use search_query::SearchErrorKind::InvalidPropOperator;
use search_query::SearchErrorKind::InvalidPropProperty;
use search_query::SearchErrorKind::InvalidPropUnsigned;
use search_query::SearchErrorKind::InvalidRatedDays;
use search_query::SearchErrorKind::InvalidRatedEase;
use search_query::SearchErrorKind::InvalidState;
use search_query::SearchErrorKind::MisplacedAnd;
use search_query::SearchErrorKind::MisplacedOr;
use search_query::SearchErrorKind::MissingKey;
use search_query::SearchErrorKind::UnclosedGroup;
use search_query::SearchErrorKind::UnclosedQuote;
use search_query::SearchErrorKind::UnknownEscape;
use search_query::SearchErrorKind::UnopenedGroup;
use search_query::SearchNode;
use search_query::SearchNode::AddedInDays;
use search_query::SearchNode::CardTemplate;
use search_query::SearchNode::Deck;
use search_query::SearchNode::Flag;
use search_query::SearchNode::NoteIDs;
use search_query::SearchNode::NoteType;
use search_query::SearchNode::Property;
use search_query::SearchNode::Regex;
use search_query::SearchNode::SingleField;
use search_query::SearchNode::State;
use search_query::SearchNode::Tag;
use search_query::SearchNode::UnqualifiedText;
use search_query::StateKind;
use search_query::TemplateKind;

fn assert_err_kind(input: &str, kind: SearchErrorKind) {
    assert_eq!(parse(input), Err(kind));
}

#[test]
fn parsing() -> Result<(), SearchErrorKind> {
    assert_eq!(parse("")?, vec![Search(SearchNode::WholeCollection)]);
    assert_eq!(parse("  ")?, vec![Search(SearchNode::WholeCollection)]);

    // leading/trailing/interspersed whitespace
    assert_eq!(
        parse("  t   t2  ")?,
        vec![
            Search(UnqualifiedText("t".into())),
            And,
            Search(UnqualifiedText("t2".into()))
        ]
    );

    // including in groups
    assert_eq!(
        parse("(  t   t2  )")?,
        vec![Group(vec![
            Search(UnqualifiedText("t".into())),
            And,
            Search(UnqualifiedText("t2".into()))
        ])]
    );

    assert_eq!(
        parse(r#"hello  -(world and "foo:bar baz") OR test"#)?,
        vec![
            Search(UnqualifiedText("hello".into())),
            And,
            Not(Box::new(Group(vec![
                Search(UnqualifiedText("world".into())),
                And,
                Search(SingleField {
                    field: "foo".into(),
                    text: "bar baz".into(),
                    is_re: false,
                })
            ]))),
            Or,
            Search(UnqualifiedText("test".into()))
        ]
    );

    assert_eq!(
        parse("foo:re:bar")?,
        vec![Search(SingleField {
            field: "foo".into(),
            text: "bar".into(),
            is_re: true
        })]
    );

    // escaping is independent of quotation
    assert_eq!(
        parse(r#""field:va\"lue""#)?,
        vec![Search(SingleField {
            field: "field".into(),
            text: "va\"lue".into(),
            is_re: false
        })]
    );
    assert_eq!(parse(r#""field:va\"lue""#)?, parse(r#"field:"va\"lue""#)?,);
    assert_eq!(parse(r#""field:va\"lue""#)?, parse(r#"field:va\"lue"#)?,);

    // the characters with a meaning in a query lose their backslash
    assert_eq!(
        parse(r#"\"\:\(\)\-"#)?,
        vec![Search(UnqualifiedText(r#"":()-"#.into())),]
    );

    // the wildcards keep theirs, an escaped backslash stands for one
    assert_eq!(
        parse(r#"\\\*\_"#)?,
        vec![Search(UnqualifiedText(r#"\\*\_"#.into())),]
    );

    // escaping parentheses is optional (only) inside quotes
    assert_eq!(parse(r#""\)\(""#), parse(r#"")(""#));

    // escaping : is optional if it is preceded by another :
    assert_eq!(parse("field:val:ue"), parse(r"field:val\:ue"));
    assert_eq!(parse(r#""field:val:ue""#), parse(r"field:val\:ue"));
    assert_eq!(parse(r#"field:"val:ue""#), parse(r"field:val\:ue"));

    // escaping - is optional if it cannot be mistaken for a negator
    assert_eq!(parse("-"), parse(r"\-"));
    assert_eq!(parse("A-"), parse(r"A\-"));
    assert_eq!(parse(r#""-A""#), parse(r"\-A"));
    assert_ne!(parse("-A"), parse(r"\-A"));

    // any character should be escapable on the right side of re:
    assert_eq!(
        parse(r#""re:\btest\%""#)?,
        vec![Search(Regex(r"\btest\%".into()))]
    );

    // no exceptions for escaping "
    assert_eq!(
        parse(r#"re:te\"st"#)?,
        vec![Search(Regex(r#"te"st"#.into()))]
    );

    // spaces are optional if node separation is clear
    assert_eq!(parse(r#"a"b"(c)"#)?, parse("a b (c)")?);

    assert_eq!(parse("added:3")?, vec![Search(AddedInDays(3))]);
    assert_eq!(
        parse("card:front")?,
        vec![Search(CardTemplate(TemplateKind::Name("front".into())))]
    );
    assert_eq!(
        parse("card:3")?,
        vec![Search(CardTemplate(TemplateKind::Ordinal(2)))]
    );
    // 0 must not cause a crash due to underflow
    assert_eq!(
        parse("card:0")?,
        vec![Search(CardTemplate(TemplateKind::Ordinal(0)))]
    );
    assert_eq!(parse("deck:default")?, vec![Search(Deck("default".into()))]);
    assert_eq!(
        parse("deck:\"default one\"")?,
        vec![Search(Deck("default one".into()))]
    );

    assert_eq!(parse("note:basic")?, vec![Search(NoteType("basic".into()))]);
    assert_eq!(parse("tag:hard")?, vec![Search(Tag("hard".into()))]);
    assert_eq!(
        parse("nid:1237123712,2,3")?,
        vec![Search(NoteIDs("1237123712,2,3".into()))]
    );
    assert_eq!(parse("is:due")?, vec![Search(State(StateKind::Due))]);
    assert_eq!(parse("flag:3")?, vec![Search(Flag(3))]);

    assert_eq!(
        parse("prop:ivl>3")?,
        vec![Search(Property {
            operator: ">".into(),
            kind: PropertyKind::Interval(3)
        })]
    );
    assert_eq!(
        parse("prop:ease<=3.3")?,
        vec![Search(Property {
            operator: "<=".into(),
            kind: PropertyKind::Ease("3.3".into())
        })]
    );
    assert_eq!("3.3".parse::<f32>(), Ok(3.3));

    Ok(())
}

#[test]
fn errors() -> Result<(), SearchErrorKind> {
    assert_err_kind("foo and", MisplacedAnd);
    assert_err_kind("and foo", MisplacedAnd);
    assert_err_kind("and", MisplacedAnd);

    assert_err_kind("foo or", MisplacedOr);
    assert_err_kind("or foo", MisplacedOr);
    assert_err_kind("or", MisplacedOr);

    assert_err_kind("()", EmptyGroup);
    assert_err_kind("( )", EmptyGroup);
    assert_err_kind("(foo () bar)", EmptyGroup);

    assert_err_kind(")", UnopenedGroup);
    assert_err_kind("foo ) bar", UnopenedGroup);
    assert_err_kind("(foo) bar)", UnopenedGroup);

    assert_err_kind("(", UnclosedGroup);
    assert_err_kind("foo ( bar", UnclosedGroup);
    assert_err_kind("(foo (bar)", UnclosedGroup);

    assert_err_kind(r#""""#, EmptyQuote);
    assert_err_kind(r#"foo:"""#, EmptyQuote);

    assert_err_kind(r#" " "#, UnclosedQuote);
    assert_err_kind(r#"" foo"#, UnclosedQuote);
    assert_err_kind(r#""\"#, UnclosedQuote);
    assert_err_kind(r#"foo:"bar"#, UnclosedQuote);
    assert_err_kind(r#"foo:"bar\"#, UnclosedQuote);

    assert_err_kind(":", MissingKey);
    assert_err_kind(":foo", MissingKey);
    assert_err_kind(r#":"foo""#, MissingKey);

    assert_err_kind(r"\", UnknownEscape(r"\".to_string()));
    assert_err_kind(r"\%", UnknownEscape(r"\%".to_string()));
    assert_err_kind(r"foo\", UnknownEscape(r"\".to_string()));
    assert_err_kind(r"\foo", UnknownEscape(r"\f".to_string()));
    assert_err_kind(r"\ ", UnknownEscape(r"\".to_string()));
    assert_err_kind(r#""\ ""#, UnknownEscape(r"\ ".to_string()));

    assert_err_kind("nid:1_2,3", InvalidIdList);
    assert_err_kind("nid:1,2,x", InvalidIdList);
    assert_err_kind("nid:,2,3", InvalidIdList);
    assert_err_kind("nid:1,2,", InvalidIdList);
    assert_err_kind("cid:1_2,3", InvalidIdList);
    assert_err_kind("cid:1,2,x", InvalidIdList);
    assert_err_kind("cid:,2,3", InvalidIdList);
    assert_err_kind("cid:1,2,", InvalidIdList);

    assert_err_kind("is:foo", InvalidState("foo".into()));
    assert_err_kind("is:DUE", InvalidState("DUE".into()));
    assert_err_kind("is:New", InvalidState("New".into()));
    assert_err_kind("is:", InvalidState("".into()));
    assert_err_kind(r#""is:learn ""#, InvalidState("learn ".into()));

    assert_err_kind(r#""flag: ""#, InvalidFlag);
    assert_err_kind("flag:-0", InvalidFlag);
    assert_err_kind("flag:", InvalidFlag);
    assert_err_kind("flag:5", InvalidFlag);
    assert_err_kind("flag:1.1", InvalidFlag);

    assert_err_kind("added:1.1", InvalidAdded);
    assert_err_kind("added:-1", InvalidAdded);
    assert_err_kind("added:", InvalidAdded);
    assert_err_kind("added:foo", InvalidAdded);

    assert_err_kind("edited:1.1", InvalidEdited);
    assert_err_kind("edited:-1", InvalidEdited);
    assert_err_kind("edited:", InvalidEdited);
    assert_err_kind("edited:foo", InvalidEdited);

    assert_err_kind("rated:1.1", InvalidRatedDays);
    assert_err_kind("rated:-1", InvalidRatedDays);
    assert_err_kind("rated:", InvalidRatedDays);
    assert_err_kind("rated:foo", InvalidRatedDays);

    assert_err_kind("rated:1:", InvalidRatedEase("rated:1".to_string()));
    assert_err_kind("rated:2:-1", InvalidRatedEase("rated:2".to_string()));
    assert_err_kind("rated:3:1.1", InvalidRatedEase("rated:3".to_string()));
    assert_err_kind("rated:0:foo", InvalidRatedEase("rated:1".to_string()));

    assert_err_kind("resched:", SearchErrorKind::InvalidResched);
    assert_err_kind("resched:-1", SearchErrorKind::InvalidResched);
    assert_err_kind("resched:1:1", SearchErrorKind::InvalidResched);
    assert_err_kind("resched:foo", SearchErrorKind::InvalidResched);

    assert_err_kind("dupe:", InvalidDupeMid);
    assert_err_kind("dupe:1.1", InvalidDupeMid);
    assert_err_kind("dupe:foo", InvalidDupeMid);

    assert_err_kind("dupe:123", InvalidDupeText);

    assert_err_kind("prop:", InvalidPropProperty("".into()));
    assert_err_kind("prop:=1", InvalidPropProperty("=1".into()));
    assert_err_kind("prop:DUE<5", InvalidPropProperty("DUE<5".into()));

    assert_err_kind("prop:lapses", InvalidPropOperator("lapses".to_string()));
    assert_err_kind("prop:pos~1", InvalidPropOperator("pos".to_string()));
    assert_err_kind("prop:reps10", InvalidPropOperator("reps".to_string()));

    assert_err_kind("prop:ease>", InvalidPropFloat("ease>".to_string()));
    assert_err_kind("prop:ease!=one", InvalidPropFloat("ease!=".to_string()));
    assert_err_kind("prop:ease<1,3", InvalidPropFloat("ease<".to_string()));

    assert_err_kind("prop:due>", InvalidPropInteger("due>".to_string()));
    assert_err_kind("prop:due=0.5", InvalidPropInteger("due=".to_string()));
    assert_err_kind("prop:due<foo", InvalidPropInteger("due<".to_string()));

    assert_err_kind("prop:ivl>", InvalidPropUnsigned("ivl>".to_string()));
    assert_err_kind("prop:reps=1.1", InvalidPropUnsigned("reps=".to_string()));
    assert_err_kind(
        "prop:lapses!=-1",
        InvalidPropUnsigned("lapses!=".to_string()),
    );

    Ok(())
}

#[test]
fn quotes_do_not_change_the_criterion() {
    for (key, val) in [("field", r#"va\"lue"#), ("deck", "a*"), ("tag", r"a\:b"), ("flag", "9"), ("x", r"\%")] {
        let plain = parse(&format!("{}:{}", key, val));
        assert_eq!(parse(&format!("\"{}:{}\"", key, val)), plain);
        assert_eq!(parse(&format!("{}:\"{}\"", key, val)), plain);
    }
    for term in ["abc", r"a\-b", "-", "a:b:c", r"\*"] {
        assert_eq!(parse(&format!("\"{}\"", term)), parse(term));
    }
}
