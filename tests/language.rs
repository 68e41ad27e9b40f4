use ssl::ast::{BinOp, ColorExpr, Expr, ExprKind, Literal, ParenExpr};
use ssl::choice::pick;
use ssl::lexer::{tokenize, Lexer, Token, TokenKind};
use ssl::parser::{parse_attempts, parse_source, parse_tokens, Parser, MAX_TRIES};
use ssl::sizes::{
    aspect_ratio_strings, band, dim_strings, find_max_size, get_default_size, get_index, image_sizes,
    Canvas,
};
use ssl::text::Span;

fn kinds(src: &[u8]) -> Vec<TokenKind> {
    tokenize(src.to_vec()).into_iter().map(|t: Token| t.kind).collect()
}

#[test]
fn lexes_operators_and_leaves() {
    assert_eq!(
        kinds(b"x+y*r/a"),
        vec![
            TokenKind::X,
            TokenKind::Plus,
            TokenKind::Y,
            TokenKind::Asterisk,
            TokenKind::R,
            TokenKind::Slash,
            TokenKind::A
        ]
    );
}

#[test]
fn lexes_translate_identifiers_before_letters() {
    assert_eq!(kinds(b"txty"), vec![TokenKind::TX, TokenKind::TY]);
    assert_eq!(kinds(b"tz"), vec![TokenKind::Other('t'), TokenKind::Other('z')]);
}

#[test]
fn lexes_keywords() {
    assert_eq!(
        kinds(b"if then else end sin cos"),
        vec![
            TokenKind::If,
            TokenKind::Whitespace,
            TokenKind::Then,
            TokenKind::Whitespace,
            TokenKind::Else,
            TokenKind::Whitespace,
            TokenKind::End,
            TokenKind::Whitespace,
            TokenKind::Sin,
            TokenKind::Whitespace,
            TokenKind::Cos
        ]
    );
}

#[test]
fn number_ordinal_comes_from_fraction_digits() {
    assert_eq!(kinds(b"0.5"), vec![TokenKind::Number(1u64 << 63)]);
    assert_eq!(kinds(b"3.25"), vec![TokenKind::Number(1u64 << 62)]);
    assert_eq!(kinds(b"42"), vec![TokenKind::Number(0)]);
    assert_eq!(kinds(b"0.1"), vec![TokenKind::Number(1844674407370955161)]);
}

#[test]
fn bare_trailing_dot_is_not_part_of_a_number() {
    let toks = tokenize(b"12.".to_vec());
    assert_eq!(toks.len(), 2);
    assert_eq!(toks[0].kind, TokenKind::Number(0));
    assert_eq!(toks[0].span, Span::new(0, 2));
    assert_eq!(toks[1].kind, TokenKind::Other('.'));
}

#[test]
fn second_dot_ends_a_number() {
    let toks = tokenize(b"1.2.3".to_vec());
    let spans: Vec<(usize, usize)> = toks.iter().map(|t| (t.span.start, t.span.end)).collect();
    assert_eq!(spans, vec![(0, 3), (3, 4), (4, 5)]);
    assert_eq!(toks[1].kind, TokenKind::Other('.'));
}

#[test]
fn every_byte_is_classified() {
    assert_eq!(
        kinds(&[0xff, 0x85, 0x00, b'#']),
        vec![
            TokenKind::Other('\u{ff}'),
            TokenKind::Whitespace,
            TokenKind::Other('\u{0}'),
            TokenKind::Other('#')
        ]
    );
    assert!(kinds(b"").is_empty());
}

#[test]
fn lexer_walks_token_by_token() {
    let mut lexer = Lexer::new(b"sin(x)".to_vec());
    assert_eq!(lexer.source(), b"sin(x)".to_vec());
    let first = lexer.next_token().unwrap();
    assert_eq!(first.kind, TokenKind::Sin);
    assert_eq!(first.span, Span::new(0, 3));
    assert_eq!(lexer.next_token().unwrap().kind, TokenKind::Lparen);
    assert_eq!(lexer.next_token().unwrap().kind, TokenKind::X);
    assert_eq!(lexer.next_token().unwrap().kind, TokenKind::Rparen);
    assert!(lexer.next_token().is_none());
}

#[test]
fn token_ordinals_and_tenths() {
    assert_eq!(TokenKind::X.as_usize(), 0);
    assert_eq!(TokenKind::End.as_usize(), 27);
    assert_eq!(TokenKind::Other('A').as_usize(), 65);
    assert_eq!(TokenKind::Other('A').as_tenths(), 5);
    assert_eq!(TokenKind::Comma.as_tenths(), 0);
}

#[test]
fn spans_compose_and_render() {
    let a = Span::new(2, 4);
    let b = Span::new(6, 9);
    assert_eq!(Span::from_spans(&a, &b), Span::new(2, 9));
    let src = [b'a', 0xC3, 0xA9, b'b'];
    assert_eq!(Span::new(0, 4).get_string(&src), "a\u{FFFD}\u{FFFD}b");
    assert_eq!(Span::new(1, 1).get_string(&src), "");
}

#[test]
fn precedence_levels() {
    assert_eq!(BinOp::LessThan.precedence(), 0);
    assert_eq!(BinOp::GreaterThan.precedence(), 0);
    assert_eq!(BinOp::Or.precedence(), 0);
    assert_eq!(BinOp::And.precedence(), 0);
    assert_eq!(BinOp::Add.precedence(), 1);
    assert_eq!(BinOp::Sub.precedence(), 1);
    assert_eq!(BinOp::Mul.precedence(), 2);
    assert_eq!(BinOp::Div.precedence(), 2);
    assert_eq!(BinOp::Mod.precedence(), 2);
    assert_eq!(BinOp::Pow.precedence(), 3);
}

#[test]
fn weighted_choice_scans_buckets() {
    // (3 + 4) mod 6 = 1 falls in the second bucket.
    assert_eq!(pick(3, 4, &[1, 2, 3]), 1);
    // (0 + 5) mod 6 = 5 falls in the last bucket.
    assert_eq!(pick(0, 5, &[1, 2, 3]), 2);
    // Zero weights are never chosen.
    assert_eq!(pick(0, 0, &[0, 0, 4]), 2);
    // The sum is taken without wrapping.
    assert_eq!(pick(u64::MAX, 1, &[1, 1]), 0);
}

fn bin_parts(e: &Expr) -> (BinOp, &Expr, &Expr) {
    match &e.kind {
        ExprKind::Bin(b) => (b.op, &b.lhs, &b.rhs),
        other => panic!("not a binary node: {:?}", other),
    }
}

#[test]
fn precedence_climbing_nests_tighter_operators() {
    let e = parse_source(b"x+y*r".to_vec());
    let (op, l, r) = bin_parts(&e);
    assert_eq!(op, BinOp::Add);
    assert_eq!(l.kind, ExprKind::X);
    let (op2, l2, r2) = bin_parts(r);
    assert_eq!(op2, BinOp::Mul);
    assert_eq!(l2.kind, ExprKind::Y);
    assert_eq!(r2.kind, ExprKind::R);
    assert_eq!(e.span, Span::new(0, 5));
}

#[test]
fn same_level_is_left_associative() {
    let e = parse_source(b"x-y-r".to_vec());
    let (op, l, r) = bin_parts(&e);
    assert_eq!(op, BinOp::Sub);
    assert_eq!(r.kind, ExprKind::R);
    let (op2, _, _) = bin_parts(l);
    assert_eq!(op2, BinOp::Sub);
}

#[test]
fn written_literal_keeps_its_bytes() {
    let e = parse_source(b"2.5".to_vec());
    assert_eq!(e.kind, ExprKind::Number(Literal::Written(Span::new(0, 3))));
}

#[test]
fn conditional_and_color_parse() {
    let e = parse_source(b"if x then y else r end".to_vec());
    match &e.kind {
        ExprKind::If(i) => {
            assert_eq!(i.cond.kind, ExprKind::X);
            assert_eq!(i.true_expr.kind, ExprKind::Y);
            assert_eq!(i.false_expr.kind, ExprKind::R);
        }
        other => panic!("not a conditional: {:?}", other),
    }
    let c = parse_source(b"{x, y, a}".to_vec());
    match &c.kind {
        ExprKind::Color(col) => {
            assert_eq!(col.r.kind, ExprKind::X);
            assert_eq!(col.g.kind, ExprKind::Y);
            assert_eq!(col.b.kind, ExprKind::A);
        }
        other => panic!("not a color: {:?}", other),
    }
}

#[test]
fn signature_word_is_replaced() {
    let e = parse_source(b"Cornelia".to_vec());
    assert_eq!(e.span, Span::new(0, 8));
    let (op, _, r) = bin_parts(&e);
    assert_eq!(op, BinOp::Sub);
    assert!(matches!(r.kind, ExprKind::Color(_)));
}

#[test]
fn parsing_is_total_on_arbitrary_bytes() {
    let inputs: Vec<Vec<u8>> = vec![
        vec![],
        b")))(((".to_vec(),
        vec![0xff, 0xfe, 0x00, 0x80],
        b"if if if then".to_vec(),
        b"{,,,}||--".to_vec(),
        (0u8..=255).collect(),
        b"Hello, I am a random string!".to_vec(),
    ];
    for input in inputs {
        let _ = parse_source(input);
    }
}

#[test]
fn parsing_is_deterministic() {
    for input in [&b""[..], b"Hello, world", b"tx ty ^^ 0.3", &[0xde, 0xad, 0xbe, 0xef]] {
        assert_eq!(parse_source(input.to_vec()), parse_source(input.to_vec()));
    }
}

#[test]
fn empty_source_makes_a_tree_at_the_end_span() {
    let e = parse_source(Vec::new());
    assert_eq!(e.span, Span::new(0, 0));
}

#[test]
fn retry_stops_after_the_bound_when_every_fold_is_constant() {
    let tokens = tokenize(b"x".to_vec());
    let (_, attempts) = parse_attempts(
        tokens,
        1,
        |e: Expr| Expr { kind: ExprKind::Number(Literal::Float(0)), span: e.span },
        || {},
    );
    assert_eq!(attempts, MAX_TRIES);
}

#[test]
fn retry_returns_first_non_constant_fold() {
    let tokens = tokenize(b"x".to_vec());
    let (e, attempts) = parse_attempts(tokens, 1, |e: Expr| e, || {});
    assert_eq!(attempts, 1);
    assert_eq!(e.kind, ExprKind::X);
    let again = parse_tokens(tokenize(b"x".to_vec()), 1, |e: Expr| e, || {});
    assert_eq!(again.kind, ExprKind::X);
}

#[test]
fn parser_from_tokens() {
    let mut p = Parser::new(tokenize(b"y".to_vec()), 1);
    assert_eq!(p.parse_expr().kind, ExprKind::Y);
}

#[test]
fn constant_trees() {
    assert!(parse_source(b"1.5".to_vec()).is_constant());
    assert!(!parse_source(b"x".to_vec()).is_constant());
    assert!(!parse_source(b"{1.0, 2.0, y}".to_vec()).is_constant());
}

#[test]
fn standard_sizes() {
    assert_eq!(get_default_size(), (1200, 1200));
    assert_eq!(find_max_size(), 3440 * 1440);
    assert_eq!(image_sizes().len(), 8);
}

#[test]
fn bands_cover_the_picture() {
    assert_eq!(band(0, 10, 1080), (0, 108));
    assert_eq!(band(9, 10, 1080), (972, 1080));
    assert_eq!(band(1, 3, 10), (3, 6));
    assert_eq!(band(3, 4, u32::MAX), (3221225471, u32::MAX));
}

#[test]
fn size_labels() {
    assert_eq!(dim_strings(2), vec!["1280x540", "2560x1080", "3440x1440"]);
    assert!(dim_strings(8).is_empty());
    assert_eq!(aspect_ratio_strings()[1], "16:9");
    assert_eq!(aspect_ratio_strings().len(), 8);
}

#[test]
fn canvas_size_follows_valid_settings() {
    let mut c = Canvas::new();
    assert_eq!(c.canvas_size(), (1200, 1200));
    assert!(c.set_size(1, 4));
    assert_eq!(c.canvas_size(), (2560, 1440));
    assert!(!c.set_size(8, 0));
    assert!(!c.set_size(2, 3));
    assert_eq!(c.canvas_size(), (2560, 1440));
    let off = Canvas { dim: (0, 99) };
    assert_eq!(off.canvas_size(), (1200, 1200));
}

#[test]
fn pixel_offsets() {
    assert_eq!(get_index(3, 2, 10), 92);
    assert_eq!(get_index(0, 0, 1), 0);
}

#[test]
fn empty_source_parses_to_a_fixed_tree() {
    // Generated from the seed alone: a color triple {Y, 0.08, (R)}.
    let at_end = Span::new(0, 0);
    let node = |kind: ExprKind| Expr { kind, span: at_end };
    let expected = node(ExprKind::Color(ColorExpr::new(
        node(ExprKind::Y),
        node(ExprKind::Number(Literal::Fixed { units: 8, places: 2 })),
        node(ExprKind::Paren(ParenExpr { inner: Box::new(node(ExprKind::R)) })),
    )));
    assert_eq!(parse_source(Vec::new()), expected);
}

#[test]
fn canvas_getters() {
    let mut c = Canvas::new();
    assert!(c.set_size(2, 2));
    assert_eq!(c.canvas_width(), 3440);
    assert_eq!(c.canvas_height(), 1440);
    assert_eq!(c.canvas_aspect_ratio(), 2);
    assert_eq!(c.canvas_resolution(), 2);
    assert_eq!(c.get_buffer_size(), 3440 * 1440 * 4);
}

#[test]
fn negation_absolute_value_and_calls() {
    let neg = parse_source(b"-x".to_vec());
    assert_eq!(neg.span, Span::new(0, 2));
    match &neg.kind {
        ExprKind::Neg(n) => assert_eq!(n.inner.kind, ExprKind::X),
        other => panic!("not a negation: {:?}", other),
    }
    let abs = parse_source(b"|x|".to_vec());
    assert_eq!(abs.span, Span::new(0, 3));
    assert!(matches!(abs.kind, ExprKind::Abs(_)));
    let sin = parse_source(b"sin(x)".to_vec());
    assert_eq!(sin.span, Span::new(0, 6));
    match &sin.kind {
        ExprKind::Sin(s) => assert_eq!(s.inner.kind, ExprKind::X),
        other => panic!("not a sine: {:?}", other),
    }
}

#[test]
fn missing_closing_delimiter_still_closes() {
    let e = parse_source(b"(x".to_vec());
    assert_eq!(e.span, Span::new(0, 2));
    match &e.kind {
        ExprKind::Paren(p) => assert_eq!(p.inner.kind, ExprKind::X),
        other => panic!("not a parenthesis: {:?}", other),
    }
}
