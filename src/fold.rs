//! Constant folding: one bottom-up pass that replaces constant sub-trees by the
//! literals of their values and applies the algebraic identities. The values
//! themselves come from the evaluator, which the folder takes as a function:
//! every constant operand is evaluated to a computed literal before the
//! identities look at it.
use vstd::prelude::*;

use crate::ast::{
    constant, AbsExpr, BinExpr, BinOp, ColorExpr, CosExpr, Expr, ExprKind, IfExpr, Literal, NegExpr,
    ParenExpr, SinExpr, TransXExpr, TransYExpr,
};
use crate::text::Span;

verus! {

/// `2^52`: the scale of the fraction field of a binary64 bit pattern.
pub open spec fn frac_scale() -> nat {
    0x10_0000_0000_0000
}

/// `2^63`: the sign bit of a binary64 bit pattern.
pub open spec fn sign_bit() -> nat {
    0x8000_0000_0000_0000
}

/// The bit pattern of the binary64 number 1.0.
pub const ONE_BITS: u64 = 0x3FF0_0000_0000_0000;

/// The bit pattern of the binary64 number 0.5.
pub const HALF_BITS: u64 = 0x3FE0_0000_0000_0000;

/// Whether a binary64 bit pattern is a NaN: all exponent bits set and a
/// nonzero fraction.
pub open spec fn nan_bits(b: u64) -> bool {
    (b as nat / frac_scale()) % 2048 == 2047 && b as nat % frac_scale() != 0
}

/// Whether a binary64 bit pattern is zero, of either sign.
pub open spec fn zero_bits(b: u64) -> bool {
    b as nat % sign_bit() == 0
}

/// `==` on the binary64 numbers of two bit patterns: no NaN equals anything,
/// and the two zeros are equal.
pub open spec fn float_eq(a: u64, b: u64) -> bool {
    !nan_bits(a) && !nan_bits(b) && (a == b || (zero_bits(a) && zero_bits(b)))
}

pub open spec fn pow10(p: nat) -> nat
    decreases p,
{
    if p == 0 {
        1
    } else {
        10 * pow10((p - 1) as nat)
    }
}

/// Whether a literal is known to be zero. A literal still at its source bytes
/// is neither zero nor one here: the folder evaluates constants first.
pub open spec fn zero_literal(l: Literal) -> bool {
    match l {
        Literal::Float(b) => zero_bits(b),
        Literal::Fixed { units, places: _ } => units == 0,
        Literal::Written(_) => false,
    }
}

/// Whether a literal is known to be one.
pub open spec fn one_literal(l: Literal) -> bool {
    match l {
        Literal::Float(b) => b == ONE_BITS,
        Literal::Fixed { units, places } => places <= 18 && units == pow10(places as nat),
        Literal::Written(_) => false,
    }
}

/// A literal zero, or a color triple whose channels are all zero.
pub open spec fn zero_kind(k: ExprKind) -> bool
    decreases k,
{
    match k {
        ExprKind::Number(l) => zero_literal(l),
        ExprKind::Color(c) => zero_kind(c.r.kind) && zero_kind(c.g.kind) && zero_kind(c.b.kind),
        _ => false,
    }
}

pub open spec fn one_kind(k: ExprKind) -> bool {
    match k {
        ExprKind::Number(l) => one_literal(l),
        _ => false,
    }
}

pub open spec fn same_literal(a: Literal, b: Literal) -> bool {
    match (a, b) {
        (Literal::Float(x), Literal::Float(y)) => float_eq(x, y),
        _ => a == b,
    }
}

/// Structural equality of two trees, spans aside, with computed literals
/// compared as binary64 numbers.
pub open spec fn same(a: Expr, b: Expr) -> bool
    decreases a,
{
    match (a.kind, b.kind) {
        (ExprKind::Bin(x), ExprKind::Bin(y)) => x.op == y.op && same(*x.lhs, *y.lhs) && same(
            *x.rhs,
            *y.rhs,
        ),
        (ExprKind::If(x), ExprKind::If(y)) => same(*x.cond, *y.cond) && same(
            *x.true_expr,
            *y.true_expr,
        ) && same(*x.false_expr, *y.false_expr),
        (ExprKind::Number(x), ExprKind::Number(y)) => same_literal(x, y),
        (ExprKind::Color(x), ExprKind::Color(y)) => same(*x.r, *y.r) && same(*x.g, *y.g) && same(
            *x.b,
            *y.b,
        ),
        (ExprKind::Paren(x), ExprKind::Paren(y)) => same(*x.inner, *y.inner),
        (ExprKind::Neg(x), ExprKind::Neg(y)) => same(*x.inner, *y.inner),
        (ExprKind::Abs(x), ExprKind::Abs(y)) => same(*x.inner, *y.inner),
        (ExprKind::Sin(x), ExprKind::Sin(y)) => same(*x.inner, *y.inner),
        (ExprKind::Cos(x), ExprKind::Cos(y)) => same(*x.inner, *y.inner),
        (ExprKind::TransX(x), ExprKind::TransX(y)) => same(*x.trans, *y.trans) && same(
            *x.inner,
            *y.inner,
        ),
        (ExprKind::TransY(x), ExprKind::TransY(y)) => same(*x.trans, *y.trans) && same(
            *x.inner,
            *y.inner,
        ),
        (ExprKind::X, ExprKind::X) => true,
        (ExprKind::Y, ExprKind::Y) => true,
        (ExprKind::R, ExprKind::R) => true,
        (ExprKind::A, ExprKind::A) => true,
        _ => false,
    }
}

fn is_nan_bits(b: u64) -> (r: bool)
    ensures
        r == nan_bits(b),
{
    (b / 0x10_0000_0000_0000) % 2048 == 2047 && b % 0x10_0000_0000_0000 != 0
}

fn is_zero_bits(b: u64) -> (r: bool)
    ensures
        r == zero_bits(b),
{
    b % 0x8000_0000_0000_0000 == 0
}

/// `==` on the binary64 numbers of two bit patterns.
pub fn float_bits_eq(a: u64, b: u64) -> (r: bool)
    ensures
        r == float_eq(a, b),
{
    !is_nan_bits(a) && !is_nan_bits(b) && (a == b || (is_zero_bits(a) && is_zero_bits(b)))
}

impl Literal {
    /// Whether the literal is known to be zero.
    pub fn is_zero(&self) -> (r: bool)
        ensures
            r == zero_literal(*self),
    {
        match self {
            Literal::Float(b) => is_zero_bits(*b),
            Literal::Fixed { units, places: _ } => *units == 0,
            Literal::Written(_) => false,
        }
    }

    /// Whether the literal is known to be one.
    pub fn is_one(&self) -> (r: bool)
        ensures
            r == one_literal(*self),
    {
        match self {
            Literal::Float(b) => *b == ONE_BITS,
            Literal::Fixed { units, places } => {
                if *places > 18 {
                    return false;
                }
                let mut p: i64 = 1;
                let mut i: u32 = 0;
                while i < *places
                    invariant
                        i <= *places <= 18,
                        p == pow10(i as nat),
                        p <= 1_000_000_000_000_000_000,
                    decreases *places - i,
                {
                    proof {
                        lemma_pow10_bound(i as nat + 1);
                    }
                    p = p * 10;
                    i = i + 1;
                }
                *units == p
            },
            Literal::Written(_) => false,
        }
    }
}

proof fn lemma_pow10_bound(i: nat)
    requires
        i <= 18,
    ensures
        pow10(i) <= 1_000_000_000_000_000_000,
    decreases 18 - i,
{
    if i < 18 {
        lemma_pow10_bound(i + 1);
    } else {
        reveal_with_fuel(pow10, 19);
    }
}

impl ExprKind {
    /// A literal zero, or a color triple whose channels are all zero.
    pub fn is_zero(&self) -> (r: bool)
        ensures
            r == zero_kind(*self),
        decreases self,
    {
        match self {
            ExprKind::Number(l) => l.is_zero(),
            ExprKind::Color(c) => c.r.kind.is_zero() && c.g.kind.is_zero() && c.b.kind.is_zero(),
            _ => false,
        }
    }

    /// A literal one.
    pub fn is_one(&self) -> (r: bool)
        ensures
            r == one_kind(*self),
    {
        match self {
            ExprKind::Number(l) => l.is_one(),
            _ => false,
        }
    }
}

fn same_lit(a: &Literal, b: &Literal) -> (r: bool)
    ensures
        r == same_literal(*a, *b),
{
    match (a, b) {
        (Literal::Float(x), Literal::Float(y)) => float_bits_eq(*x, *y),
        _ => *a == *b,
    }
}

/// Structural equality of two trees, spans aside.
pub fn same_tree(a: &Expr, b: &Expr) -> (r: bool)
    ensures
        r == same(*a, *b),
    decreases a,
{
    match (&a.kind, &b.kind) {
        (ExprKind::Bin(x), ExprKind::Bin(y)) => x.op == y.op && same_tree(&x.lhs, &y.lhs)
            && same_tree(&x.rhs, &y.rhs),
        (ExprKind::If(x), ExprKind::If(y)) => same_tree(&x.cond, &y.cond) && same_tree(
            &x.true_expr,
            &y.true_expr,
        ) && same_tree(&x.false_expr, &y.false_expr),
        (ExprKind::Number(x), ExprKind::Number(y)) => same_lit(x, y),
        (ExprKind::Color(x), ExprKind::Color(y)) => same_tree(&x.r, &y.r) && same_tree(&x.g, &y.g)
            && same_tree(&x.b, &y.b),
        (ExprKind::Paren(x), ExprKind::Paren(y)) => same_tree(&x.inner, &y.inner),
        (ExprKind::Neg(x), ExprKind::Neg(y)) => same_tree(&x.inner, &y.inner),
        (ExprKind::Abs(x), ExprKind::Abs(y)) => same_tree(&x.inner, &y.inner),
        (ExprKind::Sin(x), ExprKind::Sin(y)) => same_tree(&x.inner, &y.inner),
        (ExprKind::Cos(x), ExprKind::Cos(y)) => same_tree(&x.inner, &y.inner),
        (ExprKind::TransX(x), ExprKind::TransX(y)) => same_tree(&x.trans, &y.trans) && same_tree(
            &x.inner,
            &y.inner,
        ),
        (ExprKind::TransY(x), ExprKind::TransY(y)) => same_tree(&x.trans, &y.trans) && same_tree(
            &x.inner,
            &y.inner,
        ),
        (ExprKind::X, ExprKind::X) => true,
        (ExprKind::Y, ExprKind::Y) => true,
        (ExprKind::R, ExprKind::R) => true,
        (ExprKind::A, ExprKind::A) => true,
        _ => false,
    }
}

pub open spec fn float_at(bits: u64, span: Span) -> Expr {
    Expr { kind: ExprKind::Number(Literal::Float(bits)), span }
}

/// The identities of a binary node whose operands are folded and not both
/// constant: the simplified node, at `span`.
pub open spec fn combine_spec(op: BinOp, lhs: Expr, rhs: Expr, span: Span) -> Expr {
    let l0 = zero_kind(lhs.kind);
    let r0 = zero_kind(rhs.kind);
    let l1 = one_kind(lhs.kind);
    let r1 = one_kind(rhs.kind);
    match op {
        BinOp::Mul => if l0 || r0 {
            float_at(0, span)
        } else if l1 {
            rhs
        } else if r1 {
            lhs
        } else {
            Expr { kind: ExprKind::Bin(BinExpr { op, lhs: Box::new(lhs), rhs: Box::new(rhs) }), span }
        },
        BinOp::Div => if l0 || r0 {
            float_at(0, span)
        } else if r1 {
            lhs
        } else if same(rhs, lhs) {
            float_at(ONE_BITS, span)
        } else {
            Expr { kind: ExprKind::Bin(BinExpr { op, lhs: Box::new(lhs), rhs: Box::new(rhs) }), span }
        },
        BinOp::Mod => if l0 || r0 || same(rhs, lhs) {
            float_at(0, span)
        } else {
            Expr { kind: ExprKind::Bin(BinExpr { op, lhs: Box::new(lhs), rhs: Box::new(rhs) }), span }
        },
        BinOp::Pow => if l0 {
            float_at(0, span)
        } else if l1 {
            float_at(ONE_BITS, span)
        } else if r1 {
            lhs
        } else if r0 {
            float_at(ONE_BITS, span)
        } else {
            Expr { kind: ExprKind::Bin(BinExpr { op, lhs: Box::new(lhs), rhs: Box::new(rhs) }), span }
        },
        BinOp::Add => if l0 {
            rhs
        } else if r0 {
            lhs
        } else {
            Expr { kind: ExprKind::Bin(BinExpr { op, lhs: Box::new(lhs), rhs: Box::new(rhs) }), span }
        },
        BinOp::Sub => if l0 {
            Expr { kind: ExprKind::Neg(NegExpr { inner: Box::new(rhs) }), span }
        } else if r0 {
            lhs
        } else {
            Expr { kind: ExprKind::Bin(BinExpr { op, lhs: Box::new(lhs), rhs: Box::new(rhs) }), span }
        },
        _ => Expr {
            kind: ExprKind::Bin(BinExpr { op, lhs: Box::new(lhs), rhs: Box::new(rhs) }),
            span,
        },
    }
}

fn float_lit(bits: u64, span: Span) -> (r: Expr)
    ensures
        r == float_at(bits, span),
{
    Expr { kind: ExprKind::Number(Literal::Float(bits)), span }
}

/// Applies the identities of a binary node whose operands are folded and not
/// both constant.
pub fn combine_binary(op: BinOp, lhs: Expr, rhs: Expr, span: Span) -> (r: Expr)
    ensures
        r == combine_spec(op, lhs, rhs, span),
{
    let l0 = lhs.kind.is_zero();
    let r0 = rhs.kind.is_zero();
    let l1 = lhs.kind.is_one();
    let r1 = rhs.kind.is_one();
    match op {
        BinOp::Mul => {
            if l0 || r0 {
                float_lit(0, span)
            } else if l1 {
                rhs
            } else if r1 {
                lhs
            } else {
                Expr { kind: ExprKind::Bin(BinExpr::new(op, lhs, rhs)), span }
            }
        },
        BinOp::Div => {
            if l0 || r0 {
                float_lit(0, span)
            } else if r1 {
                lhs
            } else if same_tree(&rhs, &lhs) {
                float_lit(ONE_BITS, span)
            } else {
                Expr { kind: ExprKind::Bin(BinExpr::new(op, lhs, rhs)), span }
            }
        },
        BinOp::Mod => {
            if l0 || r0 || same_tree(&rhs, &lhs) {
                float_lit(0, span)
            } else {
                Expr { kind: ExprKind::Bin(BinExpr::new(op, lhs, rhs)), span }
            }
        },
        BinOp::Pow => {
            if l0 {
                float_lit(0, span)
            } else if l1 {
                float_lit(ONE_BITS, span)
            } else if r1 {
                lhs
            } else if r0 {
                float_lit(ONE_BITS, span)
            } else {
                Expr { kind: ExprKind::Bin(BinExpr::new(op, lhs, rhs)), span }
            }
        },
        BinOp::Add => {
            if l0 {
                rhs
            } else if r0 {
                lhs
            } else {
                Expr { kind: ExprKind::Bin(BinExpr::new(op, lhs, rhs)), span }
            }
        },
        BinOp::Sub => {
            if l0 {
                Expr { kind: ExprKind::Neg(NegExpr { inner: Box::new(rhs) }), span }
            } else if r0 {
                lhs
            } else {
                Expr { kind: ExprKind::Bin(BinExpr::new(op, lhs, rhs)), span }
            }
        },
        _ => Expr { kind: ExprKind::Bin(BinExpr::new(op, lhs, rhs)), span },
    }
}

/// The shortcuts of a translation whose offset and inner expression are
/// folded: a zero offset or a constant inner expression leaves the inner
/// expression; translating `X` by `X` (`horizontal`), or `Y` by `Y` or `A`
/// (vertical), gives the literal 0.5. `None` where no shortcut applies.
pub open spec fn translate_spec(horizontal: bool, trans: Expr, inner: Expr, span: Span) -> Option<
    Expr,
> {
    if zero_kind(trans.kind) {
        Some(inner)
    } else if crate::ast::constant(inner) {
        Some(inner)
    } else if horizontal && trans.kind == ExprKind::X && inner.kind == ExprKind::X {
        Some(float_at(HALF_BITS, span))
    } else if !horizontal && trans.kind == ExprKind::Y && (inner.kind == ExprKind::A
        || inner.kind == ExprKind::Y) {
        Some(float_at(HALF_BITS, span))
    } else {
        None
    }
}

fn is_leaf(e: &Expr, which: u8) -> (r: bool)
    ensures
        r == (if which == 0 {
            e.kind == ExprKind::X
        } else if which == 1 {
            e.kind == ExprKind::Y
        } else {
            e.kind == ExprKind::A
        }),
{
    match e.kind {
        ExprKind::X => which == 0,
        ExprKind::Y => which == 1,
        ExprKind::A => which >= 2,
        _ => false,
    }
}

/// Applies the shortcuts of a translation; see [`translate_spec`].
pub fn combine_translate(horizontal: bool, trans: &Expr, inner: Expr, span: Span) -> (r: Result<
    Expr,
    Expr,
>)
    ensures
        translate_spec(horizontal, *trans, inner, span) is Some ==> r == Ok::<Expr, Expr>(
            translate_spec(horizontal, *trans, inner, span).unwrap(),
        ),
        translate_spec(horizontal, *trans, inner, span) is None ==> r == Err::<Expr, Expr>(inner),
{
    if trans.kind.is_zero() {
        Ok(inner)
    } else if inner.is_constant() {
        Ok(inner)
    } else if horizontal && is_leaf(trans, 0) && is_leaf(&inner, 0) {
        Ok(float_lit(HALF_BITS, span))
    } else if !horizontal && is_leaf(trans, 1) && (is_leaf(&inner, 2) || is_leaf(&inner, 1)) {
        Ok(float_lit(HALF_BITS, span))
    } else {
        Err(inner)
    }
}

/// `eval` is a function: it accepts every tree and gives equal results on
/// equal trees.
pub open spec fn evaluates<E: Fn(&Expr) -> Expr>(eval: E) -> bool {
    &&& forall|x: &Expr| #[trigger] eval.requires((x,))
    &&& forall|x: &Expr, a: Expr, b: Expr|
        #[trigger] eval.ensures((x,), a) && #[trigger] eval.ensures((x,), b) ==> a == b
}

/// `truth` is a function: it accepts every tree and gives equal answers on
/// equal trees.
pub open spec fn decides<T: Fn(&Expr) -> bool>(truth: T) -> bool {
    &&& forall|x: &Expr| #[trigger] truth.requires((x,))
    &&& forall|x: &Expr, a: bool, b: bool|
        #[trigger] truth.ensures((x,), a) && #[trigger] truth.ensures((x,), b) ==> a == b
}

/// What `eval` gives for `x`.
pub open spec fn value_of<E: Fn(&Expr) -> Expr>(eval: E, x: Expr) -> Expr {
    choose|r: Expr| eval.ensures((&x,), r)
}

/// What `truth` answers for `x`.
pub open spec fn holds<T: Fn(&Expr) -> bool>(truth: T, x: Expr) -> bool {
    choose|r: bool| truth.ensures((&x,), r)
}

/// A folded operand: its value's literal where it is constant.
pub open spec fn settle<E: Fn(&Expr) -> Expr>(x: Expr, eval: E) -> Expr {
    if constant(x) {
        value_of(eval, x)
    } else {
        x
    }
}

/// The folded tree of `e`, where `eval` turns a constant tree into the literal
/// of its value (a color triple of literals for a color) and `truth` says
/// whether a constant condition holds.
pub open spec fn fold_spec<E: Fn(&Expr) -> Expr, T: Fn(&Expr) -> bool>(
    e: Expr,
    eval: E,
    truth: T,
) -> Expr
    decreases e,
{
    let span = e.span;
    match e.kind {
        ExprKind::Bin(b) => {
            let l = fold_spec(*b.lhs, eval, truth);
            let r = fold_spec(*b.rhs, eval, truth);
            let l2 = settle(l, eval);
            let r2 = settle(r, eval);
            if constant(l) && constant(r) {
                value_of(
                    eval,
                    Expr {
                        kind: ExprKind::Bin(BinExpr { op: b.op, lhs: Box::new(l2), rhs: Box::new(r2) }),
                        span,
                    },
                )
            } else {
                combine_spec(b.op, l2, r2, span)
            }
        },
        ExprKind::If(i) => {
            let c = fold_spec(*i.cond, eval, truth);
            let t = fold_spec(*i.true_expr, eval, truth);
            let f = fold_spec(*i.false_expr, eval, truth);
            if constant(c) {
                if holds(truth, c) {
                    t
                } else {
                    f
                }
            } else {
                Expr {
                    kind: ExprKind::If(
                        IfExpr { cond: Box::new(c), true_expr: Box::new(t), false_expr: Box::new(f) },
                    ),
                    span,
                }
            }
        },
        ExprKind::TransX(t) => {
            let tr = fold_spec(*t.trans, eval, truth);
            let inner = fold_spec(*t.inner, eval, truth);
            match translate_spec(true, tr, inner, span) {
                Some(x) => x,
                None => {
                    let node = Expr {
                        kind: ExprKind::TransX(TransXExpr { trans: Box::new(tr), inner: Box::new(inner) }),
                        span,
                    };
                    if constant(tr) && constant(inner) {
                        value_of(eval, node)
                    } else {
                        node
                    }
                },
            }
        },
        ExprKind::TransY(t) => {
            let tr = fold_spec(*t.trans, eval, truth);
            let inner = fold_spec(*t.inner, eval, truth);
            match translate_spec(false, tr, inner, span) {
                Some(x) => x,
                None => {
                    let node = Expr {
                        kind: ExprKind::TransY(TransYExpr { trans: Box::new(tr), inner: Box::new(inner) }),
                        span,
                    };
                    if constant(tr) && constant(inner) {
                        value_of(eval, node)
                    } else {
                        node
                    }
                },
            }
        },
        ExprKind::Neg(p) => settle(
            Expr {
                kind: ExprKind::Neg(NegExpr { inner: Box::new(fold_spec(*p.inner, eval, truth)) }),
                span,
            },
            eval,
        ),
        ExprKind::Abs(p) => settle(
            Expr {
                kind: ExprKind::Abs(AbsExpr { inner: Box::new(fold_spec(*p.inner, eval, truth)) }),
                span,
            },
            eval,
        ),
        ExprKind::Sin(p) => settle(
            Expr {
                kind: ExprKind::Sin(SinExpr { inner: Box::new(fold_spec(*p.inner, eval, truth)) }),
                span,
            },
            eval,
        ),
        ExprKind::Cos(p) => settle(
            Expr {
                kind: ExprKind::Cos(CosExpr { inner: Box::new(fold_spec(*p.inner, eval, truth)) }),
                span,
            },
            eval,
        ),
        ExprKind::Paren(p) => settle(
            Expr {
                kind: ExprKind::Paren(ParenExpr { inner: Box::new(fold_spec(*p.inner, eval, truth)) }),
                span,
            },
            eval,
        ),
        ExprKind::Color(c) => {
            let r = settle(fold_spec(*c.r, eval, truth), eval);
            let g = settle(fold_spec(*c.g, eval, truth), eval);
            let b = settle(fold_spec(*c.b, eval, truth), eval);
            Expr {
                kind: ExprKind::Color(ColorExpr { r: Box::new(r), g: Box::new(g), b: Box::new(b) }),
                span,
            }
        },
        _ => e,
    }
}

/// Calls `eval`.
fn value<E: Fn(&Expr) -> Expr>(eval: &E, x: &Expr) -> (r: Expr)
    requires
        evaluates(*eval),
    ensures
        r == value_of(*eval, *x),
{
    let r = eval(x);
    assert(eval.ensures((x,), value_of(*eval, *x)));
    r
}

/// Calls `truth`.
fn truth_of<T: Fn(&Expr) -> bool>(truth: &T, x: &Expr) -> (r: bool)
    requires
        decides(*truth),
    ensures
        r == holds(*truth, *x),
{
    let r = truth(x);
    assert(truth.ensures((x,), holds(*truth, *x)));
    r
}

fn settled<E: Fn(&Expr) -> Expr>(x: Expr, eval: &E) -> (r: Expr)
    requires
        evaluates(*eval),
    ensures
        r == settle(x, *eval),
{
    if x.is_constant() {
        value(eval, &x)
    } else {
        x
    }
}

/// One bottom-up folding pass over `e`; see [`fold_spec`].
pub fn evaluate_constants<E: Fn(&Expr) -> Expr, T: Fn(&Expr) -> bool>(
    e: Expr,
    eval: &E,
    truth: &T,
) -> (r: Expr)
    requires
        evaluates(*eval),
        decides(*truth),
    ensures
        r == fold_spec(e, *eval, *truth),
    decreases e,
{
    let span = e.span;
    match e.kind {
        ExprKind::Bin(b) => {
            let l = evaluate_constants(*b.lhs, eval, truth);
            let r = evaluate_constants(*b.rhs, eval, truth);
            let both = l.is_constant() && r.is_constant();
            let l2 = settled(l, eval);
            let r2 = settled(r, eval);
            if both {
                value(eval, &Expr { kind: ExprKind::Bin(BinExpr::new(b.op, l2, r2)), span })
            } else {
                combine_binary(b.op, l2, r2, span)
            }
        },
        ExprKind::If(i) => {
            let c = evaluate_constants(*i.cond, eval, truth);
            let t = evaluate_constants(*i.true_expr, eval, truth);
            let f = evaluate_constants(*i.false_expr, eval, truth);
            if c.is_constant() {
                if truth_of(truth, &c) {
                    t
                } else {
                    f
                }
            } else {
                Expr { kind: ExprKind::If(IfExpr::new(c, t, f)), span }
            }
        },
        ExprKind::TransX(t) => {
            let tr = evaluate_constants(*t.trans, eval, truth);
            let inner = evaluate_constants(*t.inner, eval, truth);
            match combine_translate(true, &tr, inner, span) {
                Ok(x) => x,
                Err(inner) => {
                    let both = tr.is_constant() && inner.is_constant();
                    let node = Expr {
                        kind: ExprKind::TransX(TransXExpr { trans: Box::new(tr), inner: Box::new(inner) }),
                        span,
                    };
                    if both {
                        value(eval, &node)
                    } else {
                        node
                    }
                },
            }
        },
        ExprKind::TransY(t) => {
            let tr = evaluate_constants(*t.trans, eval, truth);
            let inner = evaluate_constants(*t.inner, eval, truth);
            match combine_translate(false, &tr, inner, span) {
                Ok(x) => x,
                Err(inner) => {
                    let both = tr.is_constant() && inner.is_constant();
                    let node = Expr {
                        kind: ExprKind::TransY(TransYExpr { trans: Box::new(tr), inner: Box::new(inner) }),
                        span,
                    };
                    if both {
                        value(eval, &node)
                    } else {
                        node
                    }
                },
            }
        },
        ExprKind::Neg(p) => {
            let inner = evaluate_constants(*p.inner, eval, truth);
            settled(Expr { kind: ExprKind::Neg(NegExpr { inner: Box::new(inner) }), span }, eval)
        },
        ExprKind::Abs(p) => {
            let inner = evaluate_constants(*p.inner, eval, truth);
            settled(Expr { kind: ExprKind::Abs(AbsExpr { inner: Box::new(inner) }), span }, eval)
        },
        ExprKind::Sin(p) => {
            let inner = evaluate_constants(*p.inner, eval, truth);
            settled(Expr { kind: ExprKind::Sin(SinExpr { inner: Box::new(inner) }), span }, eval)
        },
        ExprKind::Cos(p) => {
            let inner = evaluate_constants(*p.inner, eval, truth);
            settled(Expr { kind: ExprKind::Cos(CosExpr { inner: Box::new(inner) }), span }, eval)
        },
        ExprKind::Paren(p) => {
            let inner = evaluate_constants(*p.inner, eval, truth);
            settled(Expr { kind: ExprKind::Paren(ParenExpr { inner: Box::new(inner) }), span }, eval)
        },
        ExprKind::Color(c) => {
            let r = settled(evaluate_constants(*c.r, eval, truth), eval);
            let g = settled(evaluate_constants(*c.g, eval, truth), eval);
            let b = settled(evaluate_constants(*c.b, eval, truth), eval);
            Expr { kind: ExprKind::Color(ColorExpr::new(r, g, b)), span }
        },
        kind => Expr { kind, span },
    }
}

proof fn lemma_not_constant_not_zero(x: Expr)
    requires
        !constant(x),
    ensures
        !zero_kind(x.kind),
        !one_kind(x.kind),
    decreases x,
{
    match x.kind {
        ExprKind::Color(c) => {
            if !constant(*c.r) {
                lemma_not_constant_not_zero(*c.r);
            } else if !constant(*c.g) {
                lemma_not_constant_not_zero(*c.g);
            } else {
                lemma_not_constant_not_zero(*c.b);
            }
        },
        _ => {},
    }
}

/// The identities of folding on an operand `x` that depends on the
/// coordinates, and a zero `z`: `x * z` and `z * x` fold to zero, `x + z` and
/// `z + x` to `x`, `x - z` to `x` and `z - x` to the negation of `x`.
pub proof fn law_zero_identities(x: Expr, z: Expr, span: Span)
    requires
        !constant(x),
        zero_kind(z.kind),
    ensures
        combine_spec(BinOp::Mul, x, z, span) == float_at(0, span),
        combine_spec(BinOp::Mul, z, x, span) == float_at(0, span),
        combine_spec(BinOp::Add, x, z, span) == x,
        combine_spec(BinOp::Add, z, x, span) == x,
        combine_spec(BinOp::Sub, x, z, span) == x,
        combine_spec(BinOp::Sub, z, x, span) == (Expr {
            kind: ExprKind::Neg(NegExpr { inner: Box::new(x) }),
            span,
        }),
{
    lemma_not_constant_not_zero(x);
}

/// The identities of folding on an operand `x` that depends on the
/// coordinates, and a one `o`: `x * o` and `o * x` fold to `x`, as do `x / o`
/// and `x ^ o`; `o ^ x` folds to one.
pub proof fn law_one_identities(x: Expr, o: Expr, span: Span)
    requires
        !constant(x),
        one_kind(o.kind),
        !zero_kind(o.kind),
    ensures
        combine_spec(BinOp::Mul, x, o, span) == x,
        combine_spec(BinOp::Mul, o, x, span) == x,
        combine_spec(BinOp::Div, x, o, span) == x,
        combine_spec(BinOp::Pow, x, o, span) == x,
        combine_spec(BinOp::Pow, o, x, span) == float_at(ONE_BITS, span),
{
    lemma_not_constant_not_zero(x);
}

/// An operand that depends on the coordinates, over itself, folds to one, and
/// its remainder by itself to zero.
pub proof fn law_self_quotient(x: Expr, span: Span)
    requires
        !constant(x),
        same(x, x),
    ensures
        combine_spec(BinOp::Div, x, x, span) == float_at(ONE_BITS, span),
        combine_spec(BinOp::Mod, x, x, span) == float_at(0, span),
{
    lemma_not_constant_not_zero(x);
}

} // verus!
