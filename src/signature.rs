//! The hand-built tree that the parser puts in place of the word "Cornelia".
use vstd::prelude::*;

use crate::ast::{AbsExpr, BinExpr, BinOp, ColorExpr, Expr, ExprKind, IfExpr, Literal, ParenExpr};
use crate::text::Span;

verus! {

pub open spec fn lit_at(units: i64, places: u32, span: Span) -> Expr {
    Expr { kind: ExprKind::Number(Literal::Fixed { units, places }), span }
}

pub open spec fn bin_at(op: BinOp, lhs: Expr, rhs: Expr, span: Span) -> Expr {
    Expr { kind: ExprKind::Bin(BinExpr { op, lhs: Box::new(lhs), rhs: Box::new(rhs) }), span }
}

pub open spec fn paren_at(inner: Expr, span: Span) -> Expr {
    Expr { kind: ExprKind::Paren(ParenExpr { inner: Box::new(inner) }), span }
}

pub open spec fn abs_at(inner: Expr, span: Span) -> Expr {
    Expr { kind: ExprKind::Abs(AbsExpr { inner: Box::new(inner) }), span }
}

pub open spec fn leaf_at(kind: ExprKind, span: Span) -> Expr {
    Expr { kind, span }
}

pub open spec fn color_at(r: Expr, g: Expr, b: Expr, span: Span) -> Expr {
    Expr { kind: ExprKind::Color(ColorExpr { r: Box::new(r), g: Box::new(g), b: Box::new(b) }), span }
}

/// `y + 0.133`.
pub open spec fn y_shift_at(span: Span) -> Expr {
    bin_at(BinOp::Add, leaf_at(ExprKind::Y, span), lit_at(133, 3, span), span)
}

/// The signature tree, every node at `span`:
/// `(((|((|x| - 0.25)^2.0 + (y + 0.30)^2.0)^0.5| < 0.3) * 1.0)
///   | if y + 0.133 > 0.0 then |x| + |(y + 0.133) * 0.6| < 0.5 else -1.0 end)
///  * {10.0, 0.0, 0.0} - {0.0, 1.0, 1.0}`.
pub open spec fn signature_tree(span: Span) -> Expr {
    let x = leaf_at(ExprKind::X, span);
    let y = leaf_at(ExprKind::Y, span);
    let left_sq = bin_at(
        BinOp::Pow,
        paren_at(bin_at(BinOp::Sub, abs_at(x, span), lit_at(25, 2, span), span), span),
        lit_at(20, 1, span),
        span,
    );
    let right_sq = bin_at(
        BinOp::Pow,
        paren_at(bin_at(BinOp::Add, y, lit_at(30, 2, span), span), span),
        lit_at(20, 1, span),
        span,
    );
    let dist = bin_at(BinOp::Pow, bin_at(BinOp::Add, left_sq, right_sq, span), lit_at(5, 1, span), span);
    let lobes = bin_at(
        BinOp::Mul,
        paren_at(bin_at(BinOp::LessThan, abs_at(dist, span), lit_at(3, 1, span), span), span),
        lit_at(10, 1, span),
        span,
    );
    let tip = Expr {
        kind: ExprKind::If(
            IfExpr {
                cond: Box::new(bin_at(BinOp::GreaterThan, y_shift_at(span), lit_at(0, 1, span), span)),
                true_expr: Box::new(
                    bin_at(
                        BinOp::LessThan,
                        bin_at(
                            BinOp::Add,
                            abs_at(x, span),
                            abs_at(bin_at(BinOp::Mul, y_shift_at(span), lit_at(6, 1, span), span), span),
                            span,
                        ),
                        lit_at(5, 1, span),
                        span,
                    ),
                ),
                false_expr: Box::new(lit_at(-10i64, 1, span)),
            },
        ),
        span,
    };
    let red = color_at(lit_at(100, 1, span), lit_at(0, 1, span), lit_at(0, 1, span), span);
    let cyan = color_at(lit_at(0, 1, span), lit_at(10, 1, span), lit_at(10, 1, span), span);
    bin_at(BinOp::Sub, bin_at(BinOp::Mul, bin_at(BinOp::Or, lobes, tip, span), red, span), cyan, span)
}

fn node(kind: ExprKind, span: Span) -> (r: Expr)
    ensures
        r == leaf_at(kind, span),
{
    Expr { kind, span }
}

fn lit(units: i64, places: u32, span: Span) -> (r: Expr)
    ensures
        r == lit_at(units, places, span),
{
    node(ExprKind::Number(Literal::Fixed { units, places }), span)
}

fn bin(op: BinOp, lhs: Expr, rhs: Expr, span: Span) -> (r: Expr)
    ensures
        r == bin_at(op, lhs, rhs, span),
{
    node(ExprKind::Bin(BinExpr::new(op, lhs, rhs)), span)
}

fn paren(inner: Expr, span: Span) -> (r: Expr)
    ensures
        r == paren_at(inner, span),
{
    node(ExprKind::Paren(ParenExpr { inner: Box::new(inner) }), span)
}

fn abs(inner: Expr, span: Span) -> (r: Expr)
    ensures
        r == abs_at(inner, span),
{
    node(ExprKind::Abs(AbsExpr { inner: Box::new(inner) }), span)
}

fn color(r: Expr, g: Expr, b: Expr, span: Span) -> (e: Expr)
    ensures
        e == color_at(r, g, b, span),
{
    node(ExprKind::Color(ColorExpr::new(r, g, b)), span)
}

fn y_shift(span: Span) -> (r: Expr)
    ensures
        r == y_shift_at(span),
{
    bin(BinOp::Add, node(ExprKind::Y, span), lit(133, 3, span), span)
}

/// The signature tree: a heart outline in red over cyan, every node at `span`.
pub fn cornelia_expr(span: Span) -> (r: Expr)
    ensures
        r == signature_tree(span),
{
    let left_sq = bin(
        BinOp::Pow,
        paren(bin(BinOp::Sub, abs(node(ExprKind::X, span), span), lit(25, 2, span), span), span),
        lit(20, 1, span),
        span,
    );
    let right_sq = bin(
        BinOp::Pow,
        paren(bin(BinOp::Add, node(ExprKind::Y, span), lit(30, 2, span), span), span),
        lit(20, 1, span),
        span,
    );
    let dist = bin(BinOp::Pow, bin(BinOp::Add, left_sq, right_sq, span), lit(5, 1, span), span);
    let lobes = bin(
        BinOp::Mul,
        paren(bin(BinOp::LessThan, abs(dist, span), lit(3, 1, span), span), span),
        lit(10, 1, span),
        span,
    );
    let tip = node(
        ExprKind::If(
            IfExpr::new(
                bin(BinOp::GreaterThan, y_shift(span), lit(0, 1, span), span),
                bin(
                    BinOp::LessThan,
                    bin(
                        BinOp::Add,
                        abs(node(ExprKind::X, span), span),
                        abs(bin(BinOp::Mul, y_shift(span), lit(6, 1, span), span), span),
                        span,
                    ),
                    lit(5, 1, span),
                    span,
                ),
                lit(-10, 1, span),
            ),
        ),
        span,
    );
    let red = color(lit(100, 1, span), lit(0, 1, span), lit(0, 1, span), span);
    let cyan = color(lit(0, 1, span), lit(10, 1, span), lit(10, 1, span), span);
    bin(BinOp::Sub, bin(BinOp::Mul, bin(BinOp::Or, lobes, tip, span), red, span), cyan, span)
}

} // verus!
