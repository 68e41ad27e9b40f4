//! The expression tree.
use vstd::prelude::*;

use crate::text::Span;

verus! {

/// A binary operator.
#[derive(Debug, Clone, Copy, PartialEq, Eq, Structural)]
pub enum BinOp {
    Add,
    Sub,
    Mul,
    Div,
    Mod,
    Pow,
    LessThan,
    GreaterThan,
    Or,
    And,
}

pub open spec fn prec(op: BinOp) -> u8 {
    match op {
        BinOp::LessThan | BinOp::GreaterThan | BinOp::Or | BinOp::And => 0,
        BinOp::Add | BinOp::Sub => 1,
        BinOp::Mul | BinOp::Div | BinOp::Mod => 2,
        BinOp::Pow => 3,
    }
}

impl BinOp {
    /// How tightly the operator binds: higher binds tighter.
    pub fn precedence(&self) -> (r: u8)
        ensures
            r == prec(*self),
            r <= 3,
    {
        match self {
            BinOp::LessThan => 0,
            BinOp::GreaterThan => 0,
            BinOp::Or => 0,
            BinOp::And => 0,
            BinOp::Add => 1,
            BinOp::Sub => 1,
            BinOp::Mul => 2,
            BinOp::Div => 2,
            BinOp::Mod => 2,
            BinOp::Pow => 3,
        }
    }
}

/// The value of a numeric leaf.
#[derive(Debug, Clone, Copy, PartialEq, Eq, Structural)]
pub enum Literal {
    /// The decimal literal written at these bytes of the source.
    Written(Span),
    /// The decimal `units / 10^places`.
    Fixed { units: i64, places: u32 },
    /// A computed value, as the bit pattern of an IEEE-754 binary64 number.
    Float(u64),
}

/// A node of the tree: what it is and the bytes of the source it came from.
#[derive(Debug, PartialEq)]
pub struct Expr {
    pub kind: ExprKind,
    pub span: Span,
}

/// The kinds of node.
#[derive(Debug, PartialEq)]
pub enum ExprKind {
    Bin(BinExpr),
    If(IfExpr),
    Number(Literal),
    Color(ColorExpr),
    Paren(ParenExpr),
    Neg(NegExpr),
    Abs(AbsExpr),
    Sin(SinExpr),
    Cos(CosExpr),
    TransX(TransXExpr),
    TransY(TransYExpr),
    X,
    Y,
    R,
    A,
}

/// A color triple `{r, g, b}`.
#[derive(Debug, PartialEq)]
pub struct ColorExpr {
    pub r: Box<Expr>,
    pub g: Box<Expr>,
    pub b: Box<Expr>,
}

/// A binary operation.
#[derive(Debug, PartialEq)]
pub struct BinExpr {
    pub op: BinOp,
    pub lhs: Box<Expr>,
    pub rhs: Box<Expr>,
}

/// A conditional `if c then t else f end`.
#[derive(Debug, PartialEq)]
pub struct IfExpr {
    pub cond: Box<Expr>,
    pub true_expr: Box<Expr>,
    pub false_expr: Box<Expr>,
}

/// A parenthesized expression.
#[derive(Debug, PartialEq)]
pub struct ParenExpr {
    pub inner: Box<Expr>,
}

/// A negation.
#[derive(Debug, PartialEq)]
pub struct NegExpr {
    pub inner: Box<Expr>,
}

/// An absolute value `|e|`.
#[derive(Debug, PartialEq)]
pub struct AbsExpr {
    pub inner: Box<Expr>,
}

/// A sine.
#[derive(Debug, PartialEq)]
pub struct SinExpr {
    pub inner: Box<Expr>,
}

/// A cosine.
#[derive(Debug, PartialEq)]
pub struct CosExpr {
    pub inner: Box<Expr>,
}

/// The inner expression, evaluated with the horizontal coordinate shifted by
/// the offset.
#[derive(Debug, PartialEq)]
pub struct TransXExpr {
    pub trans: Box<Expr>,
    pub inner: Box<Expr>,
}

/// The inner expression, evaluated with the vertical coordinate shifted by
/// the offset.
#[derive(Debug, PartialEq)]
pub struct TransYExpr {
    pub trans: Box<Expr>,
    pub inner: Box<Expr>,
}

impl ColorExpr {
    pub fn new(r: Expr, g: Expr, b: Expr) -> (e: ColorExpr)
        ensures
            e == (ColorExpr { r: Box::new(r), g: Box::new(g), b: Box::new(b) }),
    {
        ColorExpr { r: Box::new(r), g: Box::new(g), b: Box::new(b) }
    }
}

impl BinExpr {
    pub fn new(op: BinOp, lhs: Expr, rhs: Expr) -> (e: BinExpr)
        ensures
            e == (BinExpr { op, lhs: Box::new(lhs), rhs: Box::new(rhs) }),
    {
        BinExpr { op, lhs: Box::new(lhs), rhs: Box::new(rhs) }
    }
}

impl IfExpr {
    pub fn new(cond: Expr, true_expr: Expr, false_expr: Expr) -> (e: IfExpr)
        ensures
            e == (IfExpr {
                cond: Box::new(cond),
                true_expr: Box::new(true_expr),
                false_expr: Box::new(false_expr),
            }),
    {
        IfExpr { cond: Box::new(cond), true_expr: Box::new(true_expr), false_expr: Box::new(false_expr) }
    }
}

/// A tree is constant when no coordinate leaf (`X`, `Y`, `R`, `A`) occurs in it.
pub open spec fn constant(e: Expr) -> bool
    decreases e,
{
    match e.kind {
        ExprKind::Bin(b) => constant(*b.lhs) && constant(*b.rhs),
        ExprKind::If(i) => constant(*i.cond) && constant(*i.true_expr) && constant(*i.false_expr),
        ExprKind::Number(_) => true,
        ExprKind::Color(c) => constant(*c.r) && constant(*c.g) && constant(*c.b),
        ExprKind::Paren(p) => constant(*p.inner),
        ExprKind::Neg(p) => constant(*p.inner),
        ExprKind::Abs(p) => constant(*p.inner),
        ExprKind::Sin(p) => constant(*p.inner),
        ExprKind::Cos(p) => constant(*p.inner),
        ExprKind::TransX(t) => constant(*t.trans) && constant(*t.inner),
        ExprKind::TransY(t) => constant(*t.trans) && constant(*t.inner),
        ExprKind::X | ExprKind::Y | ExprKind::R | ExprKind::A => false,
    }
}

impl Expr {
    /// Whether no coordinate leaf occurs in the tree.
    pub fn is_constant(&self) -> (r: bool)
        ensures
            r == constant(*self),
        decreases self,
    {
        match &self.kind {
            ExprKind::Bin(b) => b.lhs.is_constant() && b.rhs.is_constant(),
            ExprKind::If(i) => i.cond.is_constant() && i.true_expr.is_constant()
                && i.false_expr.is_constant(),
            ExprKind::Number(_) => true,
            ExprKind::Color(c) => c.r.is_constant() && c.g.is_constant() && c.b.is_constant(),
            ExprKind::Paren(p) => p.inner.is_constant(),
            ExprKind::Neg(p) => p.inner.is_constant(),
            ExprKind::Abs(p) => p.inner.is_constant(),
            ExprKind::Sin(p) => p.inner.is_constant(),
            ExprKind::Cos(p) => p.inner.is_constant(),
            ExprKind::TransX(t) => t.trans.is_constant() && t.inner.is_constant(),
            ExprKind::TransY(t) => t.trans.is_constant() && t.inner.is_constant(),
            ExprKind::X => false,
            ExprKind::Y => false,
            ExprKind::R => false,
            ExprKind::A => false,
        }
    }
}

} // verus!
