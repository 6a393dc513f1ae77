use mbe::parser::{parse_pattern, parse_template, MetaTemplate, Op, OpDelimited, RepeatKind, Separator};
use mbe::tt::{Delimiter, DelimiterKind, Ident, Leaf, Literal, Punct, Spacing, Subtree, TokenId, TokenTree};
use mbe::ParseError;

fn punct(c: char, id: u32) -> TokenTree {
    TokenTree::Leaf(Leaf::Punct(Punct { char: c, spacing: Spacing::Alone, id: TokenId(id) }))
}

fn ident(s: &str, id: u32) -> TokenTree {
    TokenTree::Leaf(Leaf::Ident(Ident { text: s.to_string(), id: TokenId(id) }))
}

fn lit(s: &str, id: u32) -> TokenTree {
    TokenTree::Leaf(Leaf::Literal(Literal { text: s.to_string(), id: TokenId(id) }))
}

fn group(children: Vec<TokenTree>) -> TokenTree {
    TokenTree::Subtree(Subtree {
        delimiter: Some(Delimiter { id: TokenId(100), kind: DelimiterKind::Parenthesis }),
        token_trees: children,
    })
}

fn top(children: Vec<TokenTree>) -> Subtree {
    Subtree { delimiter: None, token_trees: children }
}

fn var(name: &str, kind: Option<&str>, id: u32) -> Op {
    Op::Var { name: name.to_string(), kind: kind.map(|k| k.to_string()), id: TokenId(id) }
}

fn leaf_op(t: TokenTree) -> Op {
    match t {
        TokenTree::Leaf(l) => Op::Leaf(l),
        TokenTree::Subtree(_) => panic!("not a leaf"),
    }
}

fn repeat_parts(op: &Op) -> (&MetaTemplate, RepeatKind, &Option<Separator>) {
    match op {
        Op::Repeat { tokens, kind, separator } => (tokens, *kind, separator),
        other => panic!("not a repeat: {:?}", other),
    }
}

#[test]
fn pattern_var_with_fragment_kind() {
    let tt = top(vec![punct('$', 1), ident("x", 2), punct(':', 3), ident("expr", 4)]);
    assert_eq!(parse_pattern(&tt), Ok(vec![var("x", Some("expr"), 2)]));
}

#[test]
fn pattern_repeat_comma_zero_or_more() {
    let body = group(vec![punct('$', 2), ident("x", 3), punct(':', 4), ident("expr", 5)]);
    let tt = top(vec![punct('$', 1), body, punct(',', 6), punct('*', 7)]);
    let ops = parse_pattern(&tt).unwrap();
    assert_eq!(ops.len(), 1);
    let (tokens, kind, separator) = repeat_parts(&ops[0]);
    assert_eq!(tokens, &MetaTemplate(vec![var("x", Some("expr"), 3)]));
    assert_eq!(kind, RepeatKind::ZeroOrMore);
    let sep = separator.as_ref().unwrap();
    assert!(matches!(sep, Separator::Puncts(_)));
    assert_eq!(sep.tt_count(), 1);
    assert!(format!("{:?}", sep).contains("','"));
}

#[test]
fn dollar_crate_is_a_leaf_in_both_modes() {
    let tt = top(vec![punct('$', 1), ident("crate", 2), punct(':', 3), punct(':', 4), ident("foo", 5)]);
    let expected = vec![
        Op::Leaf(Leaf::Ident(Ident { text: "$crate".to_string(), id: TokenId(2) })),
        leaf_op(punct(':', 3)),
        leaf_op(punct(':', 4)),
        leaf_op(ident("foo", 5)),
    ];
    assert_eq!(parse_pattern(&tt), Ok(expected));
    let expected = vec![
        Op::Leaf(Leaf::Ident(Ident { text: "$crate".to_string(), id: TokenId(2) })),
        leaf_op(punct(':', 3)),
        leaf_op(punct(':', 4)),
        leaf_op(ident("foo", 5)),
    ];
    assert_eq!(parse_template(&tt), Ok(expected));
}

#[test]
fn trailing_lone_dollar_is_a_leaf() {
    let tt = top(vec![ident("a", 1), punct('$', 2)]);
    assert_eq!(parse_pattern(&tt), Ok(vec![leaf_op(ident("a", 1)), leaf_op(punct('$', 2))]));
    assert_eq!(parse_template(&tt), Ok(vec![leaf_op(ident("a", 1)), leaf_op(punct('$', 2))]));
}

#[test]
fn modes_agree_without_dollar() {
    let tt = top(vec![
        ident("fn", 1),
        group(vec![ident("x", 2), punct(':', 3), ident("u8", 4)]),
        lit("1", 5),
        punct(';', 6),
    ]);
    let p = parse_pattern(&tt);
    let t = parse_template(&tt);
    assert_eq!(p, t);
    let ops = p.unwrap();
    assert_eq!(ops.len(), 4);
    match &ops[1] {
        Op::Subtree { tokens, delimiter } => {
            assert_eq!(tokens.0.len(), 3);
            assert_eq!(delimiter.unwrap().kind, DelimiterKind::Parenthesis);
        }
        other => panic!("not a subtree: {:?}", other),
    }
}

#[test]
fn pattern_capture_without_kind_is_expected_error() {
    let tt = top(vec![punct('$', 1), ident("x", 2)]);
    assert_eq!(parse_pattern(&tt), Err(ParseError::Expected("fragment specifier".to_string())));
    let tt = top(vec![punct('$', 1), ident("x", 2), punct(':', 3)]);
    assert_eq!(parse_pattern(&tt), Err(ParseError::Expected("fragment specifier".to_string())));
    let tt = top(vec![punct('$', 1), ident("x", 2), punct(':', 3), lit("1", 4)]);
    assert_eq!(parse_pattern(&tt), Err(ParseError::Expected("fragment specifier".to_string())));
}

#[test]
fn template_capture_leaves_suffix_as_siblings() {
    let tt = top(vec![punct('$', 1), ident("x", 2), punct(':', 3), ident("expr", 4)]);
    assert_eq!(
        parse_template(&tt),
        Ok(vec![var("x", None, 2), leaf_op(punct(':', 3)), leaf_op(ident("expr", 4))])
    );
    let tt = top(vec![punct('$', 1), ident("x", 2)]);
    assert_eq!(parse_template(&tt), Ok(vec![var("x", None, 2)]));
}

#[test]
fn boolean_literal_capture_names() {
    let tt = top(vec![punct('$', 1), lit("true", 2), punct(':', 3), ident("ident", 4)]);
    assert_eq!(parse_pattern(&tt), Ok(vec![var("true", Some("ident"), 2)]));
    let tt = top(vec![punct('$', 1), lit("false", 2)]);
    assert_eq!(parse_template(&tt), Ok(vec![var("false", None, 2)]));
}

#[test]
fn bad_capture_names_are_rejected() {
    let tt = top(vec![punct('$', 1), punct('$', 2), ident("x", 3)]);
    assert_eq!(parse_template(&tt), Err(ParseError::Expected("identifier".to_string())));
    let tt = top(vec![punct('$', 1), lit("\"s\"", 2)]);
    assert_eq!(parse_template(&tt), Err(ParseError::UnexpectedToken("invalid capture name".to_string())));
}

fn repeat_tail_of(tail: Vec<TokenTree>) -> Result<Vec<Op>, ParseError> {
    let mut tts = vec![punct('$', 1), group(vec![ident("a", 2)])];
    tts.extend(tail);
    parse_template(&top(tts))
}

#[test]
fn separator_forms() {
    let ops = repeat_tail_of(vec![punct('*', 10)]).unwrap();
    let (tokens, kind, sep) = repeat_parts(&ops[0]);
    assert_eq!(tokens, &MetaTemplate(vec![leaf_op(ident("a", 2))]));
    assert_eq!((kind, sep.is_none()), (RepeatKind::ZeroOrMore, true));

    let ops = repeat_tail_of(vec![punct(';', 10), punct('+', 11)]).unwrap();
    let (_, kind, sep) = repeat_parts(&ops[0]);
    assert_eq!(kind, RepeatKind::OneOrMore);
    assert_eq!(sep.as_ref().unwrap().tt_count(), 1);
    assert!(format!("{:?}", sep).contains("';'"));

    let ops = repeat_tail_of(vec![ident("and", 10), punct('?', 11)]).unwrap();
    let (_, kind, sep) = repeat_parts(&ops[0]);
    assert_eq!(kind, RepeatKind::ZeroOrOne);
    assert_eq!(sep, &Some(Separator::Ident(Ident { text: "and".to_string(), id: TokenId(10) })));

    let ops = repeat_tail_of(vec![lit("0", 10), punct('*', 11)]).unwrap();
    let (_, _, sep) = repeat_parts(&ops[0]);
    assert_eq!(sep, &Some(Separator::Literal(Literal { text: "0".to_string(), id: TokenId(10) })));

    let ops = repeat_tail_of(vec![punct('=', 10), punct('>', 11), punct('.', 12), punct('*', 13)]).unwrap();
    let (_, _, sep) = repeat_parts(&ops[0]);
    assert_eq!(sep.as_ref().unwrap().tt_count(), 3);
}

#[test]
fn repeat_tail_errors() {
    let four = vec![punct(',', 10), punct(',', 11), punct(',', 12), punct(',', 13), punct('*', 14)];
    assert_eq!(repeat_tail_of(four), Err(ParseError::InvalidRepeat));
    assert_eq!(repeat_tail_of(vec![]), Err(ParseError::InvalidRepeat));
    assert_eq!(repeat_tail_of(vec![punct(',', 10)]), Err(ParseError::InvalidRepeat));
    assert_eq!(repeat_tail_of(vec![ident("a", 10), ident("b", 11), punct('*', 12)]), Err(ParseError::InvalidRepeat));
    assert_eq!(repeat_tail_of(vec![punct(',', 10), ident("b", 11), punct('*', 12)]), Err(ParseError::InvalidRepeat));
    assert_eq!(repeat_tail_of(vec![ident("a", 10), punct(',', 11), punct('*', 12)]), Err(ParseError::InvalidRepeat));
    assert_eq!(repeat_tail_of(vec![group(vec![]), punct('*', 12)]), Err(ParseError::InvalidRepeat));
}

#[test]
fn parsing_continues_after_repeat() {
    let ops = repeat_tail_of(vec![punct(',', 10), punct('*', 11), ident("z", 12)]).unwrap();
    assert_eq!(ops.len(), 2);
    assert_eq!(ops[1], leaf_op(ident("z", 12)));
}

#[test]
fn separator_equality_by_text() {
    let a = Separator::Ident(Ident { text: "and".to_string(), id: TokenId(1) });
    let b = Separator::Ident(Ident { text: "and".to_string(), id: TokenId(2) });
    let c = Separator::Ident(Ident { text: "or".to_string(), id: TokenId(1) });
    let d = Separator::Literal(Literal { text: "and".to_string(), id: TokenId(1) });
    assert!(a == b);
    assert!(a != c);
    assert!(a != d);

    let p1 = repeat_tail_of(vec![punct('=', 10), punct('>', 11), punct('*', 12)]).unwrap();
    let p2 = repeat_tail_of(vec![punct('=', 20), punct('>', 21), punct('+', 22)]).unwrap();
    let p3 = repeat_tail_of(vec![punct('=', 30), punct('*', 31)]).unwrap();
    let p4 = repeat_tail_of(vec![punct('-', 40), punct('>', 41), punct('*', 42)]).unwrap();
    let s1 = repeat_parts(&p1[0]).2.as_ref().unwrap();
    let s2 = repeat_parts(&p2[0]).2.as_ref().unwrap();
    let s3 = repeat_parts(&p3[0]).2.as_ref().unwrap();
    let s4 = repeat_parts(&p4[0]).2.as_ref().unwrap();
    assert!(s1 == s2);
    assert!(s1 != s3);
    assert!(s1 != s4);
    assert!(s1 != &a);
}

fn sample_template() -> MetaTemplate {
    let tt = top(vec![ident("a", 1), punct(',', 2), ident("b", 3)]);
    MetaTemplate(parse_template(&tt).unwrap())
}

#[test]
fn iter_delimited_without_delimiter() {
    let t = sample_template();
    let mut it = t.iter_delimited(None);
    assert_eq!(it.size_hint(), (3, Some(3)));
    for k in 0..3 {
        assert!(!it.is_eof());
        match it.next() {
            Some(OpDelimited::Op(op)) => assert_eq!(op, &t.0[k]),
            other => panic!("unexpected {:?}", other),
        }
    }
    assert!(it.is_eof());
    assert!(it.peek().is_none());
    assert!(it.next().is_none());
    assert_eq!(it.size_hint(), (0, Some(0)));
    assert_eq!(t.iter().count(), 3);
}

#[test]
fn iter_delimited_with_delimiter_and_reset() {
    let t = sample_template();
    let d = Delimiter { id: TokenId(9), kind: DelimiterKind::Bracket };
    let mut it = t.iter_delimited(Some(&d));
    assert_eq!(it.size_hint(), (5, Some(5)));
    assert!(matches!(it.peek(), Some(OpDelimited::Open)));
    assert!(matches!(it.next(), Some(OpDelimited::Open)));
    for k in 0..3 {
        match it.next() {
            Some(OpDelimited::Op(op)) => assert_eq!(op, &t.0[k]),
            other => panic!("unexpected {:?}", other),
        }
    }
    assert!(!it.is_eof());
    assert!(matches!(it.next(), Some(OpDelimited::Close)));
    assert!(it.is_eof());
    assert!(it.next().is_none());
    let again = it.reset();
    assert!(!again.is_eof());
    assert!(matches!(again.peek(), Some(OpDelimited::Open)));
    assert_eq!(again.size_hint(), (5, Some(5)));
}

#[test]
fn empty_template_walks() {
    let t = MetaTemplate(parse_pattern(&top(vec![])).unwrap());
    assert!(t.iter_delimited(None).is_eof());
    let d = Delimiter { id: TokenId(1), kind: DelimiterKind::Brace };
    let mut it = t.iter_delimited(Some(&d));
    assert!(matches!(it.next(), Some(OpDelimited::Open)));
    assert!(matches!(it.next(), Some(OpDelimited::Close)));
    assert!(it.next().is_none());
}
