use shoogah_macros::boo::boo_impl;
use shoogah_macros::hml::{
    digit_char, find_value, hml_impl, is_digit_char, number, write_decimal, Key, MapEntry,
    MapLiteral,
};
use shoogah_macros::sin::{find_close, sin_impl, write_string_literal, Interpolation};
use shoogah_macros::spr::{spr_impl, Spread};
use shoogah_macros::suf::{suf_impl, IncDec, Op};
use shoogah_macros::token::{
    error, has_operator, has_punct, leading_negation, write_token, write_tokens, Delimiter,
    ErrorKind, ParseError, Token,
};

fn refused(at: usize, text: &str) -> ParseError {
    let detail = match syn::parse_str::<syn::Expr>(text) {
        Ok(_) => panic!("the text is an expression"),
        Err(refusal) => refusal.to_string(),
    };
    ParseError { kind: ErrorKind::Expression, at, detail }
}

fn group(text: &str) -> Token {
    Token::Group(Delimiter::Parenthesis, text.to_string())
}

fn ident(text: &str) -> Token {
    Token::Ident(text.to_string())
}

fn lit(text: &str) -> Token {
    Token::Literal(text.to_string())
}

fn punct(c: char) -> Token {
    Token::Punct(c, false)
}

fn joint(c: char) -> Token {
    Token::Punct(c, true)
}

fn missing(at: usize) -> ParseError {
    error(ErrorKind::Missing, at)
}

#[test]
fn suf_increment_yields_the_value_after_the_change() {
    let tokens = vec![ident("x"), joint('+'), punct('+')];
    assert_eq!(suf_impl(&tokens), Ok("{ x += 1; x }".to_string()));
    assert_eq!(IncDec::parse(&tokens), Ok(IncDec { name: "x".to_string(), op: Op::Inc }));
}

#[test]
fn suf_decrement_yields_the_value_after_the_change() {
    let tokens = vec![ident("x"), joint('-'), punct('-')];
    assert_eq!(suf_impl(&tokens), Ok("{ x -= 1; x }".to_string()));
    assert_eq!(shoogah_macros::suf(&tokens), Ok("{ x -= 1; x }".to_string()));
    assert_eq!(IncDec::parse(&tokens), Ok(IncDec { name: "x".to_string(), op: Op::Dec }));
}

#[test]
fn suf_errors() {
    assert_eq!(suf_impl(&vec![]), Err(missing(0)));
    assert_eq!(suf_impl(&vec![lit("1"), joint('+'), punct('+')]), Err(missing(0)));
    assert_eq!(suf_impl(&vec![ident("fn"), joint('+'), punct('+')]), Err(missing(0)));
    assert_eq!(suf_impl(&vec![ident("x")]), Err(missing(1)));
    assert_eq!(suf_impl(&vec![ident("x"), punct('+'), punct('+')]), Err(missing(1)));
    assert_eq!(suf_impl(&vec![ident("x"), joint('+'), punct('-')]), Err(missing(1)));
    assert_eq!(suf_impl(&vec![ident("x"), joint('+'), punct('+'), ident("y")]), Err(missing(3)));
}

#[test]
fn spr_one_field() {
    let tokens = vec![group("items"), joint('*'), punct('.'), ident("f")];
    assert_eq!(spr_impl(&tokens), Ok("(items).iter().cloned().map(|it| it.f).collect()".to_string()));
    assert_eq!(
        Spread::parse(&tokens),
        Ok(Spread { iterable: "items".to_string(), fields: vec!["f".to_string()] })
    );
}

#[test]
fn spr_no_field_is_a_copy() {
    let tokens = vec![group("items")];
    assert_eq!(spr_impl(&tokens), Ok("(items).iter().cloned().collect()".to_string()));
    assert_eq!(shoogah_macros::spr(&tokens), Ok("(items).iter().cloned().collect()".to_string()));
}

#[test]
fn spr_fields_chain() {
    let tokens =
        vec![group("v"), joint('*'), punct('.'), ident("a"), joint('*'), joint('.'), ident("b")];
    assert_eq!(
        spr_impl(&tokens),
        Ok("(v).iter().cloned().map(|it| it.a).map(|it| it.b).collect()".to_string())
    );
    let out = spr_impl(&tokens).unwrap();
    assert!(syn::parse_str::<syn::Expr>(&out).is_ok());
}

#[test]
fn spr_compound_iterable_stays_one_unit() {
    let tokens = vec![group("&v"), joint('*'), punct('.'), ident("f")];
    assert_eq!(spr_impl(&tokens), Ok("(&v).iter().cloned().map(|it| it.f).collect()".to_string()));
    let tokens = vec![group("a + b")];
    assert_eq!(spr_impl(&tokens), Ok("(a + b).iter().cloned().collect()".to_string()));
    let out = spr_impl(&tokens).unwrap();
    match syn::parse_str::<syn::Expr>(&out) {
        Ok(syn::Expr::MethodCall(call)) => assert_eq!(call.method.to_string(), "collect"),
        _ => panic!("the expansion is no method call"),
    }
}

#[test]
fn spr_errors() {
    assert_eq!(spr_impl(&vec![]), Err(missing(0)));
    assert_eq!(spr_impl(&vec![ident("v")]), Err(missing(0)));
    assert_eq!(
        spr_impl(&vec![group("v +")]),
        Err(refused(0, "v +"))
    );
    assert_eq!(spr_impl(&vec![group("v"), punct('*'), punct('.'), ident("a")]), Err(missing(1)));
    assert_eq!(spr_impl(&vec![group("v"), joint('*'), punct('.')]), Err(missing(3)));
    assert_eq!(spr_impl(&vec![group("v"), joint('*'), punct('.'), lit("1")]), Err(missing(3)));
    assert_eq!(
        spr_impl(&vec![group("v"), joint('*'), punct('.'), ident("a"), ident("b")]),
        Err(missing(4))
    );
}

#[test]
fn hml_empty_marker() {
    assert_eq!(hml_impl(&vec![punct(':')]), Ok("std::collections::HashMap::new()".to_string()));
    assert_eq!(MapLiteral::parse(&vec![punct(':')]), Ok(MapLiteral { entries: None }));
    assert_eq!(hml_impl(&vec![punct(':'), punct(':')]), Err(missing(1)));
}

#[test]
fn hml_no_tokens() {
    assert_eq!(
        hml_impl(&vec![]),
        Ok("{ let mut temp_map = std::collections::HashMap::with_capacity(0usize); temp_map }"
            .to_string())
    );
    assert_eq!(MapLiteral::parse(&vec![]), Ok(MapLiteral { entries: Some(vec![]) }));
}

#[test]
fn hml_duplicate_keys_are_inserted_in_order() {
    let tokens =
        vec![lit("\"a\""), punct(':'), lit("1"), punct(','), lit("\"a\""), punct(':'), lit("2")];
    let out = hml_impl(&tokens).unwrap();
    assert_eq!(
        out,
        "{ let mut temp_map = std::collections::HashMap::with_capacity(2usize); \
         temp_map.insert(\"a\", 1 ); temp_map.insert(\"a\", 2 ); temp_map }"
    );
    assert!(syn::parse_str::<syn::Expr>(&out).is_ok());
    assert_eq!(shoogah_macros::hml(&tokens), Ok(out));
}

#[test]
fn hml_parse_keeps_keys_and_values() {
    let tokens = vec![
        ident("k"),
        punct(':'),
        ident("x"),
        punct('+'),
        lit("1"),
        punct(','),
        lit("2"),
        punct(':'),
        ident("f"),
        group("3, 4"),
        punct(','),
    ];
    assert_eq!(
        MapLiteral::parse(&tokens),
        Ok(MapLiteral {
            entries: Some(vec![
                MapEntry { key: Key::Variable("k".to_string()), value: "x + 1 ".to_string() },
                MapEntry { key: Key::Literal("2".to_string()), value: "f (3, 4) ".to_string() },
            ]),
        })
    );
    assert_eq!(
        MapEntry::parse(&tokens, 0),
        Ok((MapEntry { key: Key::Variable("k".to_string()), value: "x + 1 ".to_string() }, 5))
    );
    assert_eq!(Key::parse(&tokens, 6), Ok((Key::Literal("2".to_string()), 7)));
    assert_eq!(Key::parse(&tokens, 0), Ok((Key::Variable("k".to_string()), 1)));
    assert_eq!(Key::parse(&tokens, 6).unwrap().0.text(), "2");
}

#[test]
fn hml_boolean_words_are_literal_keys() {
    let tokens = vec![ident("true"), punct(':'), lit("1"), punct(','), ident("false"), punct(':'), lit("0")];
    assert_eq!(
        MapLiteral::parse(&tokens),
        Ok(MapLiteral {
            entries: Some(vec![
                MapEntry { key: Key::Literal("true".to_string()), value: "1 ".to_string() },
                MapEntry { key: Key::Literal("false".to_string()), value: "0 ".to_string() },
            ]),
        })
    );
    assert_eq!(
        hml_impl(&tokens),
        Ok("{ let mut temp_map = std::collections::HashMap::with_capacity(2usize); \
            temp_map.insert(true, 1 ); temp_map.insert(false, 0 ); temp_map }"
            .to_string())
    );
}

#[test]
fn hml_negative_numbers_are_literal_keys() {
    let tokens = vec![punct('-'), lit("1"), punct(':'), lit("\"x\"")];
    assert_eq!(Key::parse(&tokens, 0), Ok((Key::Literal("-1".to_string()), 2)));
    assert_eq!(
        MapEntry::parse(&tokens, 0),
        Ok((MapEntry { key: Key::Literal("-1".to_string()), value: "\"x\" ".to_string() }, 4))
    );
    assert_eq!(
        hml_impl(&tokens),
        Ok("{ let mut temp_map = std::collections::HashMap::with_capacity(1usize); \
            temp_map.insert(-1, \"x\" ); temp_map }"
            .to_string())
    );
    let tokens = vec![punct('-'), lit("2.5"), punct(':'), lit("0")];
    assert_eq!(Key::parse(&tokens, 0), Ok((Key::Literal("-2.5".to_string()), 2)));
    assert_eq!(number(&tokens, 1), Some("2.5"));
    assert_eq!(number(&tokens, 0), None);
    assert!(is_digit_char('7'));
    assert!(!is_digit_char('x'));
}

#[test]
fn hml_minus_needs_a_number() {
    let grammar = |at| error(ErrorKind::Grammar, at);
    assert_eq!(hml_impl(&vec![punct('-'), ident("x"), punct(':'), lit("1")]), Err(grammar(0)));
    assert_eq!(hml_impl(&vec![punct('-'), lit("\"a\""), punct(':'), lit("1")]), Err(grammar(0)));
    assert_eq!(hml_impl(&vec![punct('+'), lit("1"), punct(':'), lit("1")]), Err(grammar(0)));
    assert_eq!(hml_impl(&vec![punct('-')]), Err(grammar(0)));
    assert_eq!(hml_impl(&vec![punct('-'), lit("1")]), Err(missing(2)));
}

#[test]
fn hml_value_may_hold_commas_of_its_own() {
    let tokens = vec![
        ident("a"),
        punct(':'),
        punct('|'),
        ident("x"),
        punct(','),
        ident("y"),
        punct('|'),
        ident("x"),
        punct(','),
        ident("b"),
        punct(':'),
        lit("2"),
    ];
    assert_eq!(find_value(&tokens, 2), Some((8, "| x , y | x ".to_string())));
    assert_eq!(
        MapLiteral::parse(&tokens),
        Ok(MapLiteral {
            entries: Some(vec![
                MapEntry { key: Key::Variable("a".to_string()), value: "| x , y | x ".to_string() },
                MapEntry { key: Key::Variable("b".to_string()), value: "2 ".to_string() },
            ]),
        })
    );
}

#[test]
fn hml_capacity_is_the_number_of_entries() {
    let mut tokens = vec![];
    for _ in 0..12 {
        tokens.push(ident("k"));
        tokens.push(punct(':'));
        tokens.push(lit("0"));
        tokens.push(punct(','));
    }
    let out = hml_impl(&tokens).unwrap();
    assert!(out.starts_with(
        "{ let mut temp_map = std::collections::HashMap::with_capacity(12usize); temp_map.insert(k, 0 ); "
    ));
    assert_eq!(out.matches("temp_map.insert(").count(), 12);
}

#[test]
fn hml_errors() {
    let grammar = |at| error(ErrorKind::Grammar, at);
    let expression = |at| error(ErrorKind::Expression, at);
    assert_eq!(hml_impl(&vec![punct('+'), punct(':'), lit("1")]), Err(grammar(0)));
    assert_eq!(hml_impl(&vec![group("a"), punct(':'), lit("1")]), Err(grammar(0)));
    assert_eq!(hml_impl(&vec![ident("match"), punct(':'), lit("1")]), Err(grammar(0)));
    assert_eq!(hml_impl(&vec![ident("a"), lit("1")]), Err(missing(1)));
    assert_eq!(hml_impl(&vec![ident("a")]), Err(missing(1)));
    assert_eq!(hml_impl(&vec![ident("a"), punct(':')]), Err(expression(2)));
    assert_eq!(hml_impl(&vec![ident("a"), punct(':'), punct(',')]), Err(expression(2)));
    assert_eq!(
        hml_impl(&vec![ident("a"), punct(':'), lit("1"), punct(','), punct(',')]),
        Err(grammar(4))
    );
    assert_eq!(hml_impl(&vec![ident("a"), punct(':'), lit("1"), lit("2")]), Err(expression(2)));
}

#[test]
fn decimal_numerals() {
    let mut out = String::new();
    write_decimal(&mut out, 0);
    assert_eq!(out, "0");
    let mut out = String::from("n=");
    write_decimal(&mut out, 10);
    assert_eq!(out, "n=10");
    let mut out = String::new();
    write_decimal(&mut out, 9876543210);
    assert_eq!(out, "9876543210");
    assert_eq!(digit_char(7), '7');
}

#[test]
fn sin_one_marker() {
    let tokens = vec![lit("\"x = ${1+1}\"")];
    assert_eq!(sin_impl(&tokens), Ok("format!(\"x = {}\", 1+1)".to_string()));
    assert_eq!(
        Interpolation::parse(&tokens),
        Ok(Interpolation { fmt_str: "x = {}".to_string(), expressions: vec!["1+1".to_string()] })
    );
    assert_eq!(shoogah_macros::sin(&tokens), Ok("format!(\"x = {}\", 1+1)".to_string()));
}

#[test]
fn sin_no_marker_is_the_literal_alone() {
    assert_eq!(sin_impl(&vec![lit("\"hello\"")]), Ok("\"hello\"".to_string()));
    assert_eq!(sin_impl(&vec![lit("\"\"")]), Ok("\"\"".to_string()));
    assert_eq!(sin_impl(&vec![lit("\"cost: $5 }\"")]), Ok("\"cost: $5 }\"".to_string()));
    assert_eq!(sin_impl(&vec![lit("r\"raw\"")]), Ok("\"raw\"".to_string()));
}

#[test]
fn sin_markers_in_order() {
    let tokens = vec![lit("\"${a} and ${b.c} or ${f(1)}!\"")];
    assert_eq!(
        sin_impl(&tokens),
        Ok("format!(\"{} and {} or {}!\", a, b.c, f(1))".to_string())
    );
    let out = sin_impl(&tokens).unwrap();
    assert!(syn::parse_str::<syn::Expr>(&out).is_ok());
}

#[test]
fn sin_escapes_are_resolved_and_written_back() {
    let tokens = vec![lit("\"a\\n\\\"${x}\\\\\"")];
    assert_eq!(
        Interpolation::parse(&tokens),
        Ok(Interpolation { fmt_str: "a\n\"{}\\".to_string(), expressions: vec!["x".to_string()] })
    );
    assert_eq!(sin_impl(&tokens), Ok("format!(\"a\\n\\\"{}\\\\\", x)".to_string()));
}

#[test]
fn sin_unterminated_marker() {
    assert_eq!(
        sin_impl(&vec![lit("\"a ${b\"")]),
        Err(error(ErrorKind::Unterminated, 2))
    );
    assert_eq!(
        sin_impl(&vec![lit("\"${a} ${\"")]),
        Err(error(ErrorKind::Unterminated, 5))
    );
    assert_eq!(
        Interpolation::scan("é${"),
        Err(error(ErrorKind::Unterminated, 1))
    );
}

#[test]
fn sin_marker_must_hold_an_expression() {
    assert_eq!(
        sin_impl(&vec![lit("\"a ${1 +} b\"")]),
        Err(refused(4, "1 +"))
    );
}

#[test]
fn sin_empty_braces_are_kept_as_text() {
    assert_eq!(sin_impl(&vec![lit("\"a${}b\"")]), Ok("\"a${}b\"".to_string()));
    assert_eq!(
        Interpolation::scan("a${}b"),
        Ok(Interpolation { fmt_str: "a${}b".to_string(), expressions: vec![] })
    );
    assert_eq!(
        Interpolation::scan("${}${x}"),
        Ok(Interpolation { fmt_str: "${}{}".to_string(), expressions: vec!["x".to_string()] })
    );
    assert_eq!(Interpolation::scan("${"), Err(error(ErrorKind::Unterminated, 0)));
}

#[test]
fn literals_of_every_kind_are_read_without_failure() {
    assert_eq!(sin_impl(&vec![lit("c\"x\"")]), Err(error(ErrorKind::Grammar, 0)));
    assert_eq!(sin_impl(&vec![lit("b\"x\"")]), Err(error(ErrorKind::Grammar, 0)));
    assert_eq!(
        boo_impl(&vec![lit("c\"x\"")]),
        Ok("{ use shoogah::AsBool; (c\"x\" ).as_bool() }".to_string())
    );
    assert_eq!(
        spr_impl(&vec![group("c\"x\"")]),
        Ok("(c\"x\").iter().cloned().collect()".to_string())
    );
}

#[test]
fn sin_errors() {
    assert_eq!(sin_impl(&vec![]), Err(missing(0)));
    assert_eq!(sin_impl(&vec![ident("x")]), Err(missing(0)));
    assert_eq!(sin_impl(&vec![lit("1")]), Err(error(ErrorKind::Grammar, 0)));
    assert_eq!(sin_impl(&vec![lit("\"a\""), lit("\"b\"")]), Err(missing(1)));
}

#[test]
fn string_literals_and_braces() {
    assert_eq!(write_string_literal("a\"b\\c\n\r\t\0d"), "\"a\\\"b\\\\c\\n\\r\\t\\0d\"");
    assert_eq!(write_string_literal("José"), "\"José\"");
    assert_eq!(find_close("ab}c}", 5, 0), 2);
    assert_eq!(find_close("ab}c}", 5, 3), 4);
    assert_eq!(find_close("abc", 3, 1), 3);
}

#[test]
fn boo_tests_the_whole_expression() {
    let tokens = vec![ident("x"), punct('+'), lit("1")];
    assert_eq!(boo_impl(&tokens), Ok("{ use shoogah::AsBool; (x + 1 ).as_bool() }".to_string()));
    assert_eq!(
        boo_impl(&vec![ident("x"), punct('+')]),
        Err(refused(0, "x + "))
    );
    assert_eq!(boo_impl(&vec![]), Err(refused(0, "")));
}

#[test]
fn tokens_are_written_as_source_text() {
    let tokens = vec![
        ident("a"),
        joint('+'),
        punct('='),
        lit("1"),
        Token::Group(Delimiter::Brace, "b".to_string()),
        Token::Group(Delimiter::Bracket, "0".to_string()),
        Token::Group(Delimiter::Invisible, "c".to_string()),
        group("d"),
    ];
    assert_eq!(write_tokens(&tokens, 0, 8), "a += 1 {b} [0] c (d) ");
    assert_eq!(write_tokens(&tokens, 1, 3), "+= ");
    assert_eq!(write_tokens(&tokens, 4, 4), "");
    let mut out = String::from("x");
    write_token(&mut out, &tokens[3]);
    assert_eq!(out, "x1 ");
}

#[test]
fn token_tests() {
    let tokens = vec![punct('!'), joint('?'), punct(':'), punct('?'), punct(':')];
    assert!(has_punct(&tokens, 0, '!'));
    assert!(has_punct(&tokens, 1, '?'));
    assert!(!has_punct(&tokens, 1, ':'));
    assert!(!has_punct(&tokens, 5, ':'));
    assert!(has_operator(&tokens, 1, '?', ':'));
    assert!(!has_operator(&tokens, 3, '?', ':'));
    assert!(!has_operator(&tokens, 4, ':', ':'));
    assert_eq!(leading_negation(&tokens), (true, 1));
    assert_eq!(leading_negation(&vec![]), (false, 0));
}

#[test]
fn entry_points_forward() {
    let tokens = vec![group("a"), punct('?'), group("1"), punct(':'), group("2")];
    assert_eq!(shoogah_macros::cxp(&tokens), shoogah_macros::cxp::cxp_impl(&tokens));
    let tokens = vec![group("a"), joint('?'), punct(':'), group("2")];
    assert_eq!(
        shoogah_macros::elv(&tokens),
        Ok("{ use shoogah::AsBool; if (a).as_bool() { a } else { 2 } }".to_string())
    );
    let tokens = vec![group("a"), joint('?'), punct('='), group("2")];
    assert_eq!(
        shoogah_macros::ela(&tokens),
        Ok("{ use shoogah::AsBool; if !((a).as_bool()) { a = 2; } }".to_string())
    );
}
