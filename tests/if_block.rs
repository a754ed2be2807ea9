use liquid::context::Context;
use liquid::if_block::{
    compare_numbers, is_else, parse_arguments, split_branches, IfBlock, IfError,
    NotComparable, Operand,
};
use liquid::lexer::ComparisonOperator::{
    Contains, Equals, GreaterThan, GreaterThanEquals, LessThan, LessThanEquals, NotEquals,
};
use liquid::lexer::{Element, Token};
use liquid::number::Number;
use liquid::template::{parse, Template};
use liquid::value::Value;

fn num(x: f32) -> Number {
    Number::from_bits(x.to_bits())
}

fn num_tok(x: f32) -> Token {
    Token::NumberLiteral(num(x))
}

fn ident(s: &str) -> Token {
    Token::Identifier(s.to_string())
}

fn raw(s: &str) -> Element {
    Element::Raw(s.to_string())
}

fn else_tag() -> Element {
    Element::Tag(vec![ident("else")], "".to_string())
}

fn raw_texts(elements: &[Element]) -> Vec<String> {
    elements
        .iter()
        .map(|e| match e {
            Element::Raw(s) => s.clone(),
            Element::Tag(_, src) => format!("tag:{}", src),
        })
        .collect()
}

#[test]
fn test_if() {
    let block = IfBlock;
    // 5 < 6 then "if true" else "if false"
    let if_tag = block.initialize(
        "if",
        &vec![num_tok(5f32), Token::Comparison(LessThan), num_tok(6f32)],
        vec![raw("if true")],
    );
    assert_eq!(
        if_tag.unwrap().render(&mut Context::new()).unwrap(),
        "if true".to_string()
    );

    // 7 < 6 then "if true" else "if false"
    let else_tag = block.initialize(
        "if",
        &vec![num_tok(7f32), Token::Comparison(LessThan), num_tok(6f32)],
        vec![raw("if true"), else_tag(), raw("if false")],
    );
    assert_eq!(
        else_tag.unwrap().render(&mut Context::new()).unwrap(),
        "if false".to_string()
    );
}

#[test]
fn absent_identifier_selects_else_branch() {
    let node = IfBlock
        .initialize(
            "if",
            &vec![ident("x"), Token::Comparison(Equals), num_tok(3f32)],
            vec![raw("yes"), else_tag(), raw("no")],
        )
        .unwrap();
    let mut ctx = Context::new();
    assert_eq!(node.compare(&ctx), Err(NotComparable));
    assert_eq!(node.render(&mut ctx), Some("no".to_string()));
}

#[test]
fn contains_always_selects_false_branch() {
    let with_else = IfBlock
        .initialize(
            "if",
            &vec![num_tok(5f32), Token::Comparison(Contains), num_tok(6f32)],
            vec![raw("yes"), else_tag(), raw("no")],
        )
        .unwrap();
    assert_eq!(with_else.render(&mut Context::new()), Some("no".to_string()));
    let without_else = IfBlock
        .initialize(
            "if",
            &vec![num_tok(5f32), Token::Comparison(Contains), num_tok(5f32)],
            vec![raw("yes")],
        )
        .unwrap();
    assert_eq!(without_else.render(&mut Context::new()), None);
    assert!(!compare_numbers(num(1.0), num(1.0), &Contains));
    assert!(!compare_numbers(num(-3.0), num(8.0), &Contains));
}

#[test]
fn numeric_comparison_table() {
    let pairs = [(1.0f32, 2.0f32), (2.0, 2.0), (3.0, 2.0), (-1.5, 0.25), (-2.0, -3.0)];
    for (a, b) in pairs.iter() {
        let (x, y) = (num(*a), num(*b));
        assert_eq!(compare_numbers(x, y, &Equals), a == b);
        assert_eq!(compare_numbers(x, y, &NotEquals), a != b);
        assert_eq!(compare_numbers(x, y, &LessThan), a < b);
        assert_eq!(compare_numbers(x, y, &GreaterThan), a > b);
        assert_eq!(compare_numbers(x, y, &LessThanEquals), a <= b);
        assert_eq!(compare_numbers(x, y, &GreaterThanEquals), a >= b);
    }
}

#[test]
fn zeros_of_both_signs_are_equal() {
    assert!(compare_numbers(num(0.0), num(-0.0), &Equals));
    assert!(!compare_numbers(num(-0.0), num(0.0), &LessThan));
    assert_eq!(num(-0.0).key(), 0);
    assert_eq!(num(1.0).key(), 0x3f80_0000);
    assert_eq!(num(-1.0).key(), -0x3f80_0000);
}

#[test]
fn infinities_bound_the_finite_numbers() {
    assert!(compare_numbers(num(f32::MAX), num(f32::INFINITY), &LessThan));
    assert!(compare_numbers(num(f32::NEG_INFINITY), num(f32::MIN), &LessThan));
}

#[test]
fn identifiers_resolve_through_the_context() {
    let mut ctx = Context::new();
    ctx.set_val("a", Value::Num(num(4.0)));
    ctx.set_val("b", Value::Num(num(9.0)));
    let node = IfBlock
        .initialize(
            "if",
            &vec![ident("a"), Token::Comparison(LessThan), ident("b")],
            vec![raw("less"), else_tag(), raw("not less")],
        )
        .unwrap();
    assert_eq!(node.compare(&ctx), Ok(true));
    assert_eq!(node.render(&mut ctx), Some("less".to_string()));
    let node = IfBlock
        .initialize(
            "if",
            &vec![num_tok(10.0), Token::Comparison(LessThanEquals), ident("b")],
            vec![raw("less"), else_tag(), raw("not less")],
        )
        .unwrap();
    assert_eq!(node.compare(&ctx), Ok(false));
    assert_eq!(node.render(&mut ctx), Some("not less".to_string()));
}

#[test]
fn later_binding_shadows_earlier() {
    let mut ctx = Context::new();
    ctx.set_val("a", Value::Num(num(1.0)));
    ctx.set_val("a", Value::Num(num(8.0)));
    match ctx.get_val("a") {
        Some(Value::Num(n)) => assert_eq!(n.to_bits(), 8f32.to_bits()),
        _ => panic!("a is bound to a number"),
    }
    assert!(ctx.get_val("b").is_none());
}

#[test]
fn non_numeric_operands_are_not_comparable() {
    let mut ctx = Context::new();
    ctx.set_val("s", Value::Str("text".to_string()));
    let body = || vec![raw("yes"), else_tag(), raw("no")];
    let cases = vec![
        vec![Token::StringLiteral("a".to_string()), Token::Comparison(Equals), num_tok(1.0)],
        vec![num_tok(1.0), Token::Comparison(Equals), Token::StringLiteral("a".to_string())],
        vec![ident("s"), Token::Comparison(NotEquals), num_tok(1.0)],
        vec![num_tok(1.0), Token::Comparison(NotEquals), ident("s")],
        vec![ident("s"), Token::Comparison(NotEquals), ident("s")],
    ];
    for args in cases.iter() {
        let node = IfBlock.initialize("if", args, body()).unwrap();
        assert_eq!(node.compare(&ctx), Err(NotComparable));
        assert_eq!(node.render(&mut ctx), Some("no".to_string()));
    }
    let node = IfBlock.initialize("if", &cases[2], vec![raw("yes")]).unwrap();
    assert_eq!(node.render(&mut ctx), None);
}

#[test]
fn render_is_idempotent() {
    let node = IfBlock
        .initialize(
            "if",
            &vec![ident("n"), Token::Comparison(GreaterThanEquals), num_tok(2.0)],
            vec![raw("big"), raw("!"), else_tag(), raw("small")],
        )
        .unwrap();
    let mut first = Context::new();
    first.set_val("n", Value::Num(num(2.0)));
    let mut second = Context::new();
    second.set_val("n", Value::Num(num(2.0)));
    let a = node.render(&mut first);
    let b = node.render(&mut first);
    let c = node.render(&mut second);
    assert_eq!(a, Some("big!".to_string()));
    assert_eq!(a, b);
    assert_eq!(a, c);
}

#[test]
fn split_without_else_keeps_whole_body() {
    let (t, f) = split_branches(vec![raw("a"), raw("b")]);
    assert_eq!(raw_texts(&t), vec!["a", "b"]);
    assert!(f.is_empty());
    let node = IfBlock
        .initialize(
            "if",
            &vec![num_tok(1.0), Token::Comparison(Equals), num_tok(1.0)],
            vec![raw("a"), raw("b")],
        )
        .unwrap();
    assert!(node.if_false.is_none());
    assert_eq!(node.if_true.parts, vec!["a", "b"]);
}

#[test]
fn split_with_one_else_excludes_marker() {
    let (t, f) = split_branches(vec![raw("a"), raw("b"), else_tag(), raw("c")]);
    assert_eq!(raw_texts(&t), vec!["a", "b"]);
    assert_eq!(raw_texts(&f), vec!["c"]);
    let node = IfBlock
        .initialize(
            "if",
            &vec![num_tok(1.0), Token::Comparison(Equals), num_tok(1.0)],
            vec![raw("a"), else_tag()],
        )
        .unwrap();
    assert_eq!(node.if_true.parts, vec!["a"]);
    assert!(node.if_false.is_none());
}

#[test]
fn split_at_first_of_two_else_markers() {
    let second = Element::Tag(vec![ident("else")], "second".to_string());
    let (t, f) = split_branches(vec![raw("a"), else_tag(), raw("b"), second, raw("c")]);
    assert_eq!(raw_texts(&t), vec!["a"]);
    assert_eq!(raw_texts(&f), vec!["b", "tag:second", "c"]);
}

#[test]
fn else_marker_is_recognised_by_name_alone() {
    let with_args = Element::Tag(vec![ident("else"), num_tok(1.0)], "".to_string());
    assert!(!is_else(&with_args));
    let other = Element::Tag(vec![ident("elsewhere")], "".to_string());
    assert!(!is_else(&other));
    assert!(is_else(&else_tag()));
    assert!(!is_else(&raw("else")));
}

#[test]
fn argument_errors() {
    match parse_arguments(&[]) {
        Err(IfError::ExpectedValue(None)) => {}
        other => panic!("unexpected {:?}", other),
    }
    match parse_arguments(&[Token::Comparison(Equals)]) {
        Err(IfError::ExpectedValue(Some(Token::Comparison(Equals)))) => {}
        other => panic!("unexpected {:?}", other),
    }
    match parse_arguments(&[num_tok(1.0)]) {
        Err(IfError::ExpectedComparator(None)) => {}
        other => panic!("unexpected {:?}", other),
    }
    match parse_arguments(&[num_tok(1.0), ident("x")]) {
        Err(IfError::ExpectedComparator(Some(Token::Identifier(s)))) => assert_eq!(s, "x"),
        other => panic!("unexpected {:?}", other),
    }
    match parse_arguments(&[num_tok(1.0), Token::Comparison(Equals)]) {
        Err(IfError::ExpectedValue(None)) => {}
        other => panic!("unexpected {:?}", other),
    }
    match parse_arguments(&[ident("x"), Token::Comparison(Equals), Token::Comparison(Equals)]) {
        Err(IfError::ExpectedValue(Some(Token::Comparison(Equals)))) => {}
        other => panic!("unexpected {:?}", other),
    }
    match parse_arguments(&[
        Token::StringLiteral("s".to_string()),
        Token::Comparison(GreaterThan),
        ident("y"),
        num_tok(4.0),
    ]) {
        Ok((Operand::StringLiteral(l), GreaterThan, Operand::Identifier(r))) => {
            assert_eq!(l, "s");
            assert_eq!(r, "y");
        }
        other => panic!("unexpected {:?}", other),
    }
}

#[test]
fn branch_errors_name_the_branch() {
    let args = vec![num_tok(1.0), Token::Comparison(Equals), num_tok(1.0)];
    let unknown = || Element::Tag(vec![ident("for")], "for".to_string());
    match IfBlock.initialize("if", &args, vec![unknown(), else_tag(), unknown()]) {
        Err(IfError::TrueBranch(m)) => assert_eq!(m, "unknown tag: for"),
        other => panic!("unexpected {:?}", other),
    }
    match IfBlock.initialize("if", &args, vec![raw("a"), else_tag(), unknown()]) {
        Err(IfError::FalseBranch(m)) => assert_eq!(m, "unknown tag: for"),
        other => panic!("unexpected {:?}", other),
    }
    match IfBlock.initialize("if", &args, vec![raw("a"), else_tag(), raw("b"), else_tag()]) {
        Err(IfError::FalseBranch(_)) => {}
        other => panic!("unexpected {:?}", other),
    }
}

#[test]
fn parse_joins_raw_text() {
    let t = parse(&vec![raw("x"), raw(""), raw("yz")]).unwrap();
    assert_eq!(t.render(&mut Context::new()), Some("xyz".to_string()));
    let empty = parse(&vec![]).unwrap();
    assert_eq!(empty.render(&mut Context::new()), Some(String::new()));
}

#[test]
fn nan_lies_beyond_infinity_of_its_sign() {
    let nan = Number::from_bits(0x7fc0_0000);
    assert!(compare_numbers(num(f32::INFINITY), nan, &LessThan));
    assert!(compare_numbers(nan, nan, &Equals));
    let negative_nan = Number::from_bits(0xffc0_0000);
    assert!(compare_numbers(negative_nan, num(f32::NEG_INFINITY), &LessThan));
}

#[test]
fn template_from_parts_renders_them_in_order() {
    let t = Template::new(vec!["a".to_string(), "bc".to_string()]);
    let mut ctx = Context::new();
    ctx.set_val("x", Value::Num(num(1.0)));
    assert_eq!(t.render(&mut ctx), Some("abc".to_string()));
    assert!(ctx.get_val("x").is_some());
}
