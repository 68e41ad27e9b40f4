use ssl::ast::{BinExpr, BinOp, ColorExpr, Expr, ExprKind, Literal};
use ssl::fold::{
    combine_binary, combine_translate, evaluate_constants, float_bits_eq, same_tree, HALF_BITS,
    ONE_BITS,
};
use ssl::lexer::tokenize;
use ssl::parser::{compile_source, parse_attempts, parse_source, MAX_TRIES};
use ssl::signature::cornelia_expr;
use ssl::text::Span;

fn sp() -> Span {
    Span::new(0, 1)
}

fn float(v: f64) -> Expr {
    Expr { kind: ExprKind::Number(Literal::Float(v.to_bits())), span: sp() }
}

fn leaf(kind: ExprKind) -> Expr {
    Expr { kind, span: sp() }
}

fn x() -> Expr {
    leaf(ExprKind::X)
}

fn y() -> Expr {
    leaf(ExprKind::Y)
}

#[test]
fn bit_constants() {
    assert_eq!(ONE_BITS, 1.0f64.to_bits());
    assert_eq!(HALF_BITS, 0.5f64.to_bits());
}

#[test]
fn float_equality_on_bits() {
    assert!(float_bits_eq(0.0f64.to_bits(), (-0.0f64).to_bits()));
    assert!(!float_bits_eq(f64::NAN.to_bits(), f64::NAN.to_bits()));
    assert!(float_bits_eq(2.5f64.to_bits(), 2.5f64.to_bits()));
    assert!(!float_bits_eq(2.5f64.to_bits(), 2.0f64.to_bits()));
}

#[test]
fn zero_and_one_literals() {
    assert!(ExprKind::Number(Literal::Float(0)).is_zero());
    assert!(ExprKind::Number(Literal::Float((-0.0f64).to_bits())).is_zero());
    assert!(!ExprKind::Number(Literal::Float(0.5f64.to_bits())).is_zero());
    assert!(ExprKind::Number(Literal::Fixed { units: 0, places: 1 }).is_zero());
    assert!(ExprKind::Number(Literal::Float(ONE_BITS)).is_one());
    assert!(ExprKind::Number(Literal::Fixed { units: 100, places: 2 }).is_one());
    assert!(!ExprKind::Number(Literal::Fixed { units: 10, places: 2 }).is_one());
    assert!(!ExprKind::X.is_zero());
    let zero_color = ExprKind::Color(ColorExpr::new(float(0.0), float(0.0), float(-0.0)));
    assert!(zero_color.is_zero());
    let mixed = ExprKind::Color(ColorExpr::new(float(0.0), float(1.0), float(0.0)));
    assert!(!mixed.is_zero());
}

#[test]
fn product_with_zero_folds_to_zero() {
    assert_eq!(combine_binary(BinOp::Mul, x(), float(0.0), sp()), float(0.0));
    assert_eq!(combine_binary(BinOp::Mul, float(0.0), x(), sp()), float(0.0));
}

#[test]
fn product_with_one_keeps_the_other_operand() {
    assert_eq!(combine_binary(BinOp::Mul, x(), float(1.0), sp()), x());
    assert_eq!(combine_binary(BinOp::Mul, float(1.0), y(), sp()), y());
}

#[test]
fn quotient_identities() {
    assert_eq!(combine_binary(BinOp::Div, x(), x(), sp()), float(1.0));
    assert_eq!(combine_binary(BinOp::Div, y(), y(), sp()), float(1.0));
    assert_eq!(combine_binary(BinOp::Div, x(), float(1.0), sp()), x());
    assert_eq!(combine_binary(BinOp::Div, x(), float(0.0), sp()), float(0.0));
}

#[test]
fn remainder_identities() {
    assert_eq!(combine_binary(BinOp::Mod, x(), float(0.0), sp()), float(0.0));
    assert_eq!(combine_binary(BinOp::Mod, y(), y(), sp()), float(0.0));
}

#[test]
fn power_identities() {
    assert_eq!(combine_binary(BinOp::Pow, float(0.0), x(), sp()), float(0.0));
    assert_eq!(combine_binary(BinOp::Pow, float(1.0), x(), sp()), float(1.0));
    assert_eq!(combine_binary(BinOp::Pow, x(), float(1.0), sp()), x());
    assert_eq!(combine_binary(BinOp::Pow, x(), float(0.0), sp()), float(1.0));
}

#[test]
fn sum_and_difference_identities() {
    assert_eq!(combine_binary(BinOp::Add, x(), float(0.0), sp()), x());
    assert_eq!(combine_binary(BinOp::Add, float(0.0), x(), sp()), x());
    assert_eq!(combine_binary(BinOp::Sub, x(), float(0.0), sp()), x());
    match combine_binary(BinOp::Sub, float(0.0), x(), sp()).kind {
        ExprKind::Neg(n) => assert_eq!(*n.inner, x()),
        other => panic!("expected a negation, got {:?}", other),
    }
}

#[test]
fn other_operators_are_rebuilt() {
    let e = combine_binary(BinOp::LessThan, x(), float(0.0), sp());
    assert_eq!(
        e,
        Expr { kind: ExprKind::Bin(BinExpr::new(BinOp::LessThan, x(), float(0.0))), span: sp() }
    );
    let q = combine_binary(BinOp::Div, x(), y(), sp());
    assert!(matches!(q.kind, ExprKind::Bin(_)));
}

#[test]
fn structural_equality_ignores_spans() {
    let a = Expr { kind: ExprKind::X, span: Span::new(0, 1) };
    let b = Expr { kind: ExprKind::X, span: Span::new(5, 6) };
    assert!(same_tree(&a, &b));
    assert!(!same_tree(&x(), &y()));
    assert!(same_tree(&float(0.0), &float(-0.0)));
    assert!(!same_tree(&float(f64::NAN), &float(f64::NAN)));
    assert!(same_tree(&cornelia_expr(Span::new(0, 8)), &cornelia_expr(Span::new(3, 11))));
}

#[test]
fn translation_shortcuts() {
    assert_eq!(combine_translate(true, &float(0.0), y(), sp()), Ok(y()));
    assert_eq!(combine_translate(true, &x(), float(2.0), sp()), Ok(float(2.0)));
    assert_eq!(combine_translate(true, &x(), x(), sp()), Ok(float(0.5)));
    assert_eq!(combine_translate(false, &y(), leaf(ExprKind::A), sp()), Ok(float(0.5)));
    assert_eq!(combine_translate(false, &y(), y(), sp()), Ok(float(0.5)));
    assert_eq!(combine_translate(false, &x(), x(), sp()), Err(x()));
    assert_eq!(combine_translate(true, &y(), x(), sp()), Err(x()));
}

/// A small evaluator for folding tests: literals, sums, products, sines and
/// cosines of constant trees.
fn test_value(src: &[u8], e: &Expr) -> f64 {
    match &e.kind {
        ExprKind::Number(Literal::Written(s)) => {
            std::str::from_utf8(&src[s.start..s.end]).unwrap().parse().unwrap()
        }
        ExprKind::Number(Literal::Float(b)) => f64::from_bits(*b),
        ExprKind::Number(Literal::Fixed { units, places }) => {
            *units as f64 / 10f64.powi(*places as i32)
        }
        ExprKind::Bin(b) => {
            let l = test_value(src, &b.lhs);
            let r = test_value(src, &b.rhs);
            match b.op {
                BinOp::Add => l + r,
                BinOp::Sub => l - r,
                BinOp::Mul => l * r,
                BinOp::Div => l / r,
                _ => panic!("operator not covered"),
            }
        }
        ExprKind::Sin(p) => test_value(src, &p.inner).sin(),
        ExprKind::Cos(p) => test_value(src, &p.inner).cos(),
        ExprKind::Paren(p) => test_value(src, &p.inner),
        ExprKind::Neg(p) => -test_value(src, &p.inner),
        other => panic!("not constant: {:?}", other),
    }
}

fn fold_source(src: &[u8]) -> Expr {
    let tree = parse_source(src.to_vec());
    let literal = |e: &Expr| Expr {
        kind: ExprKind::Number(Literal::Float(test_value(src, e).to_bits())),
        span: e.span,
    };
    let truth = |e: &Expr| test_value(src, e) >= 0.0;
    evaluate_constants(tree, &literal, &truth)
}

fn float_value(e: &Expr) -> f64 {
    match e.kind {
        ExprKind::Number(Literal::Float(b)) => f64::from_bits(b),
        ref other => panic!("not a computed literal: {:?}", other),
    }
}

#[test]
fn folding_times_zero_gives_the_folded_zero() {
    let a = fold_source(b"x * 0.0");
    assert_eq!(float_value(&a), 0.0);
    let z = fold_source(b"0.0");
    assert_eq!(z.kind, ExprKind::Number(Literal::Written(Span::new(0, 3))));
}

#[test]
fn folding_x_over_x_gives_one() {
    assert_eq!(float_value(&fold_source(b"x / x")), 1.0);
}

#[test]
fn folding_trig_of_zero() {
    assert_eq!(float_value(&fold_source(b"sin(0.0)")), 0.0);
    assert_eq!(float_value(&fold_source(b"cos(0.0)")), 1.0);
}

#[test]
fn folding_subtraction_of_zero() {
    assert_eq!(fold_source(b"x - 0.0").kind, ExprKind::X);
    match fold_source(b"0.0 - x").kind {
        ExprKind::Neg(n) => assert_eq!(n.inner.kind, ExprKind::X),
        other => panic!("expected a negation, got {:?}", other),
    }
}

#[test]
fn folding_constant_sums() {
    assert_eq!(float_value(&fold_source(b"2.0 + 2.0")), 4.0);
    assert_eq!(float_value(&fold_source(b"(1.0 / 2.0)")), 0.5);
    assert_eq!(fold_source(b"x + 0.0").kind, ExprKind::X);
}

#[test]
fn folding_a_constant_condition_picks_a_branch() {
    assert_eq!(fold_source(b"if 1.0 then x else y end").kind, ExprKind::X);
    assert_eq!(fold_source(b"if 0.0 - 1.0 then x else y end").kind, ExprKind::Y);
    assert!(matches!(fold_source(b"if x then x else y end").kind, ExprKind::If(_)));
}

#[test]
fn folding_keeps_coordinate_trees() {
    let e = fold_source(b"x * y");
    assert!(matches!(e.kind, ExprKind::Bin(_)));
    assert!(!e.is_constant());
}

#[test]
fn constant_source_is_retried_up_to_the_bound() {
    let src = b"1.5";
    let literal = |e: &Expr| Expr {
        kind: ExprKind::Number(Literal::Float(test_value(src, e).to_bits())),
        span: e.span,
    };
    let truth = |e: &Expr| test_value(src, e) >= 0.0;
    let (e, count) = parse_attempts(
        tokenize(src.to_vec()),
        src.len(),
        |t: Expr| evaluate_constants(t, &literal, &truth),
        || {},
    );
    assert_eq!(count, MAX_TRIES);
    assert_eq!(e.kind, ExprKind::Number(Literal::Written(Span::new(0, 3))));
}

#[test]
fn folding_retry_accepts_a_coordinate_tree_at_once() {
    let src = b"x + 0.0";
    let literal = |e: &Expr| Expr {
        kind: ExprKind::Number(Literal::Float(test_value(src, e).to_bits())),
        span: e.span,
    };
    let truth = |e: &Expr| test_value(src, e) >= 0.0;
    let e = compile_source(src.to_vec(), |t: Expr| evaluate_constants(t, &literal, &truth));
    assert_eq!(e.kind, ExprKind::X);
}
