//! The total parser: precedence climbing over the tokens, with a seeded,
//! weighted generation fallback wherever the tokens do not fit the grammar.
use vstd::prelude::*;

use crate::ast::{
    constant, prec, AbsExpr, BinExpr, BinOp, ColorExpr, CosExpr, Expr, ExprKind, IfExpr, Literal, NegExpr,
    ParenExpr, SinExpr,
};
use crate::choice::{choice, pick, sum_from};
use crate::lexer::{ordinal, tokenize, tokens_from, Token, TokenKind};
use crate::signature::{abs_at, color_at, paren_at, cornelia_expr, signature_tree};
use crate::text::Span;

verus! {

/// How many times a tree is parsed, at most, before one is accepted.
pub const MAX_TRIES: u64 = 100;

/// The parser's state.
///
/// Every parsing step takes one unit of `steps`, so every parse ends: once the
/// budget is spent, each pending construct is closed with an `X` leaf and the
/// operator loops stop. The budget that [`Parser::new`] sets, 2^24 units plus
/// 256 per token, is far above what a parse takes.
pub struct Parser {
    /// The length of the source, for the spans made at its end.
    pub source_len: usize,
    pub tokens: Vec<Token>,
    pub cursor: usize,
    /// The terminators awaited by the constructs being parsed, innermost last.
    pub looking_for: Vec<TokenKind>,
    pub seed: u64,
    /// Nonzero while a conditional's condition is parsed: no literal is made up.
    pub not_number: u64,
    /// What is left of the work budget; each parsing step takes one unit.
    pub steps: u64,
}

/// The work budget for a list of tokens: far more than any parse of them
/// takes, and a bound that makes the parser total.
pub open spec fn budget(n: nat) -> u64 {
    if n < 0x1_0000_0000 {
        (0x100_0000 + 256 * n) as u64
    } else {
        u64::MAX
    }
}

pub open spec fn next_seed(s: u64) -> u64 {
    if s < u64::MAX {
        (s + 1) as u64
    } else {
        0
    }
}

/// The first position at or after `c` that is not a whitespace token.
pub open spec fn skip_ws(toks: Seq<Token>, c: int) -> int
    decreases toks.len() - c,
{
    if 0 <= c < toks.len() && toks[c].kind == TokenKind::Whitespace {
        skip_ws(toks, c + 1)
    } else {
        c
    }
}

proof fn lemma_skip_ws(toks: Seq<Token>, c: int)
    requires
        0 <= c <= toks.len(),
    ensures
        c <= skip_ws(toks, c) <= toks.len(),
    decreases toks.len() - c,
{
    if c < toks.len() && toks[c].kind == TokenKind::Whitespace {
        lemma_skip_ws(toks, c + 1);
    }
}

pub open spec fn binop_weights() -> Seq<u64> {
    seq![7, 7, 9, 9, 9, 6, 1, 1, 0, 0]
}

pub open spec fn binop_table(i: int) -> BinOp {
    if i == 0 {
        BinOp::Add
    } else if i == 1 {
        BinOp::Sub
    } else if i == 2 {
        BinOp::Mul
    } else if i == 3 {
        BinOp::Div
    } else if i == 4 {
        BinOp::Mod
    } else if i == 5 {
        BinOp::Pow
    } else if i == 6 {
        BinOp::And
    } else if i == 7 {
        BinOp::Or
    } else if i == 8 {
        BinOp::LessThan
    } else {
        BinOp::GreaterThan
    }
}

/// The operator that a token spells, if any.
pub open spec fn spelled_op(k: TokenKind) -> Option<BinOp> {
    match k {
        TokenKind::Plus => Some(BinOp::Add),
        TokenKind::Minus => Some(BinOp::Sub),
        TokenKind::Asterisk => Some(BinOp::Mul),
        TokenKind::Slash => Some(BinOp::Div),
        TokenKind::Procent => Some(BinOp::Mod),
        TokenKind::Carrot => Some(BinOp::Pow),
        TokenKind::Bar => Some(BinOp::Or),
        TokenKind::And => Some(BinOp::And),
        TokenKind::Less => Some(BinOp::LessThan),
        TokenKind::Greater => Some(BinOp::GreaterThan),
        _ => None,
    }
}

/// The parser's state as the contracts see it.
pub ghost struct PState {
    pub cursor: int,
    pub stack: Seq<TokenKind>,
    pub seed: u64,
    pub not_number: u64,
    pub steps: u64,
}

pub open spec fn st_seed(st: PState) -> PState {
    PState { seed: next_seed(st.seed), ..st }
}

pub open spec fn st_step(st: PState) -> (bool, PState) {
    if st.steps == 0 {
        (false, st)
    } else {
        (true, PState { steps: (st.steps - 1) as u64, ..st })
    }
}

pub open spec fn st_skip(toks: Seq<Token>, st: PState) -> PState {
    PState { cursor: skip_ws(toks, st.cursor), ..st }
}

pub open spec fn st_consume(toks: Seq<Token>, st: PState) -> PState {
    if 0 <= st.cursor < toks.len() {
        PState { cursor: skip_ws(toks, st.cursor + 1), ..st }
    } else {
        st
    }
}

pub open spec fn st_consume_if(toks: Seq<Token>, st: PState, k: TokenKind) -> PState {
    if 0 <= st.cursor < toks.len() && toks[st.cursor].kind == k {
        st_consume(toks, st)
    } else {
        st
    }
}

pub open spec fn consume_n(toks: Seq<Token>, st: PState, k: nat) -> PState
    decreases k,
{
    if k == 0 {
        st
    } else {
        st_consume(toks, consume_n(toks, st, (k - 1) as nat))
    }
}

/// The span of the current token, or the empty span at the end of the source.
pub open spec fn span_at(toks: Seq<Token>, n: usize, st: PState) -> Span {
    if 0 <= st.cursor < toks.len() {
        toks[st.cursor].span
    } else {
        Span { start: n, end: n }
    }
}

pub open spec fn leaf_x(toks: Seq<Token>, n: usize, st: PState) -> Expr {
    Expr { kind: ExprKind::X, span: span_at(toks, n, st) }
}

pub open spec fn bin_op_at(toks: Seq<Token>, st: PState) -> (BinOp, PState) {
    let c = st.cursor;
    if 0 <= c < toks.len() && spelled_op(toks[c].kind).is_some() {
        (spelled_op(toks[c].kind).unwrap(), st)
    } else {
        let m = if 0 <= c < toks.len() {
            ordinal(toks[c].kind)
        } else {
            0
        };
        let st1 = st_seed(st);
        (binop_table(choice(m, st1.seed, binop_weights())), st1)
    }
}

pub open spec fn interest_at(toks: Seq<Token>, st: PState) -> (bool, PState) {
    let st1 = st_seed(st);
    let c = st.cursor;
    (
        st.stack.len() > 0 && 0 <= c < toks.len() && (toks[c].kind == st.stack.last() || (
        toks[c].kind is Other && choice(ordinal(toks[c].kind), st1.seed, seq![1u64, 3]) == 0)),
        st1,
    )
}

pub open spec fn signature_ahead(toks: Seq<Token>, st: PState) -> bool {
    let c = st.cursor;
    &&& 0 <= c && c + 7 < toks.len()
    &&& (toks[c].kind == TokenKind::Other('C') || toks[c].kind == TokenKind::Other('c'))
    &&& toks[c + 1].kind == TokenKind::Other('o')
    &&& toks[c + 2].kind == TokenKind::R
    &&& toks[c + 3].kind == TokenKind::Other('n')
    &&& toks[c + 4].kind == TokenKind::Other('e')
    &&& toks[c + 5].kind == TokenKind::Other('l')
    &&& toks[c + 6].kind == TokenKind::Other('i')
    &&& toks[c + 7].kind == TokenKind::A
}

pub open spec fn sp_cornelia(toks: Seq<Token>, n: usize, st: PState) -> (PState, Expr) {
    let start = span_at(toks, n, st).start;
    let end = if start < usize::MAX - 8 {
        (start + 8) as usize
    } else {
        usize::MAX
    };
    (consume_n(toks, st, 8), signature_tree(Span { start, end }))
}

pub open spec fn bin_node(op: BinOp, lhs: Expr, rhs: Expr, start: Span) -> Expr {
    Expr {
        kind: ExprKind::Bin(BinExpr { op, lhs: Box::new(lhs), rhs: Box::new(rhs) }),
        span: Span { start: start.start, end: rhs.span.end },
    }
}

pub open spec fn with_stack(st: PState, stack: Seq<TokenKind>) -> PState {
    PState { stack, ..st }
}

/// Parsing with `k` awaited: pushed before, popped after.
pub open spec fn sp_awaiting(toks: Seq<Token>, n: usize, st: PState, k: TokenKind) -> (
    PState,
    Expr,
)
    decreases st.steps, 2nat,
{
    let (st1, e) = sp_expr(toks, n, with_stack(st, st.stack.push(k)));
    (with_stack(st1, st1.stack.drop_last()), e)
}

/// One whole expression.
pub open spec fn sp_expr(toks: Seq<Token>, n: usize, st: PState) -> (PState, Expr)
    decreases st.steps, 1nat,
{
    sp_binary(toks, n, st, None, 0)
}

/// The generation fallback: a weighted choice, driven by the current token's
/// ordinal (or by the seed at the end of the tokens) plus the next seed, over
/// color `5/l`, parenthesis `2/l`, sine `1/l`, cosine `1/l`, `X` 4, `Y` 4,
/// `R` 2, `A` 2, literal 3 (0 while a condition is parsed), conditional
/// `min(l, 2)` and negation 0, where `l` is the context depth plus one. A
/// made-up literal is the token's tenths digit, or the seed's hundredths at
/// the end of the tokens.
pub open spec fn sp_choose(toks: Seq<Token>, n: usize, st0: PState) -> (PState, Expr)
    decreases st0.steps, 0nat,
{
    let (ok, st) = st_step(st0);
    if !ok {
        (st, leaf_x(toks, n, st))
    } else {
        let c = st.cursor;
        let (m, lit, span, st) = if 0 <= c < toks.len() {
            let k = toks[c].kind;
            (ordinal(k), Literal::Fixed { units: (ordinal(k) % 10) as i64, places: 1 }, toks[c].span, st)
        } else {
            let st1 = st_seed(st);
            let st2 = st_seed(st1);
            (st1.seed, Literal::Fixed { units: (st2.seed % 100) as i64, places: 2 }, Span { start: n, end: n }, st2)
        };
        let depth = st.stack.len() as u64;
        let l: u64 = if depth < u64::MAX {
            (depth + 1) as u64
        } else {
            u64::MAX
        };
        let num: u64 = if st.not_number == 0 {
            3
        } else {
            0
        };
        let cond: u64 = if l < 2 {
            l
        } else {
            2
        };
        let st = st_seed(st);
        let w = seq![
            (5u64 / l) as u64,
            (2u64 / l) as u64,
            (1u64 / l) as u64,
            (1u64 / l) as u64,
            4u64,
            4u64,
            2u64,
            2u64,
            num,
            cond,
            0u64,
        ];
        let i = choice(m, st.seed, w);
        if i == 0 {
            sp_color(toks, n, st)
        } else if i == 1 {
            sp_paren(toks, n, st)
        } else if i == 2 {
            sp_function(toks, n, st, true)
        } else if i == 3 {
            sp_function(toks, n, st, false)
        } else if i == 4 {
            (st, Expr { kind: ExprKind::X, span })
        } else if i == 5 {
            (st, Expr { kind: ExprKind::Y, span })
        } else if i == 6 {
            (st, Expr { kind: ExprKind::R, span })
        } else if i == 7 {
            (st, Expr { kind: ExprKind::A, span })
        } else if i == 8 {
            (st, Expr { kind: ExprKind::Number(lit), span })
        } else if i == 9 {
            sp_if(toks, n, st)
        } else {
            sp_neg(toks, n, st)
        }
    }
}

/// A color triple `{r, g, b}`, each channel awaiting its delimiter.
pub open spec fn sp_color(toks: Seq<Token>, n: usize, st0: PState) -> (PState, Expr)
    decreases st0.steps, 0nat,
{
    let start = span_at(toks, n, st0);
    let (ok, st) = st_step(st0);
    if !ok {
        let z = leaf_x(toks, n, st);
        (st, color_at(z, z, z, start))
    } else {
        let st = st_consume_if(toks, st, TokenKind::Lbrace);
        let (st, r) = sp_awaiting(toks, n, st, TokenKind::Comma);
        if st.steps >= st0.steps {
            (st, r)
        } else {
            let st = st_consume_if(toks, st, TokenKind::Comma);
            let (st, g) = sp_awaiting(toks, n, st, TokenKind::Comma);
            if st.steps >= st0.steps {
                (st, g)
            } else {
                let st = st_consume_if(toks, st, TokenKind::Comma);
                let (st, b) = sp_awaiting(toks, n, st, TokenKind::Rbrace);
                let st = st_consume_if(toks, st, TokenKind::Rbrace);
                let end = span_at(toks, n, st);
                (st, color_at(r, g, b, Span { start: start.start, end: end.start }))
            }
        }
    }
}

/// A negation `-e`.
pub open spec fn sp_neg(toks: Seq<Token>, n: usize, st0: PState) -> (PState, Expr)
    decreases st0.steps, 0nat,
{
    let (ok, st) = st_step(st0);
    if !ok {
        (st, leaf_x(toks, n, st))
    } else {
        let start = span_at(toks, n, st);
        let st = st_consume_if(toks, st, TokenKind::Minus);
        let (st, inner) = sp_expr(toks, n, st);
        let end = if st.cursor > 0 {
            toks[st.cursor - 1].span.end
        } else if n > 0 {
            (n - 1) as usize
        } else {
            0
        };
        (
            st,
            Expr {
                kind: ExprKind::Neg(NegExpr { inner: Box::new(inner) }),
                span: Span { start: start.start, end },
            },
        )
    }
}

/// An absolute value `|e|`.
pub open spec fn sp_abs(toks: Seq<Token>, n: usize, st0: PState) -> (PState, Expr)
    decreases st0.steps, 0nat,
{
    let (ok, st) = st_step(st0);
    if !ok {
        (st, leaf_x(toks, n, st))
    } else {
        let start = span_at(toks, n, st);
        let st = st_consume_if(toks, st, TokenKind::Bar);
        let (st, inner) = sp_awaiting(toks, n, st, TokenKind::Bar);
        let st = st_consume_if(toks, st, TokenKind::Bar);
        let end = span_at(toks, n, st);
        (st, abs_at(inner, Span { start: start.start, end: end.start }))
    }
}

/// A sine (`sine`) or cosine call: the name, then `(e)`.
pub open spec fn sp_function(toks: Seq<Token>, n: usize, st0: PState, sine: bool) -> (
    PState,
    Expr,
)
    decreases st0.steps, 0nat,
{
    let (ok, st) = st_step(st0);
    if !ok {
        (st, leaf_x(toks, n, st))
    } else {
        let start = span_at(toks, n, st);
        let st = st_consume(toks, st);
        let st = st_consume_if(toks, st, TokenKind::Lparen);
        let (st, inner) = sp_awaiting(toks, n, st, TokenKind::Rparen);
        let st = st_consume_if(toks, st, TokenKind::Rparen);
        let end = span_at(toks, n, st);
        let kind = if sine {
            ExprKind::Sin(SinExpr { inner: Box::new(inner) })
        } else {
            ExprKind::Cos(CosExpr { inner: Box::new(inner) })
        };
        (st, Expr { kind, span: Span { start: start.start, end: end.end } })
    }
}

/// A conditional `if c then t else f end`; no literal is made up for the
/// first operand of its condition.
pub open spec fn sp_if(toks: Seq<Token>, n: usize, st0: PState) -> (PState, Expr)
    decreases st0.steps, 0nat,
{
    let (ok, st) = st_step(st0);
    if !ok {
        (st, leaf_x(toks, n, st))
    } else {
        let start = span_at(toks, n, st);
        let st = st_consume_if(toks, st, TokenKind::If);
        let st = if st.not_number < u64::MAX {
            PState { not_number: (st.not_number + 1) as u64, ..st }
        } else {
            st
        };
        let (st, c) = sp_awaiting(toks, n, st, TokenKind::Then);
        if st.steps >= st0.steps {
            (st, c)
        } else {
            let st = st_consume_if(toks, st, TokenKind::Then);
            let (st, t) = sp_awaiting(toks, n, st, TokenKind::Else);
            if st.steps >= st0.steps {
                (st, t)
            } else {
                let st = st_consume_if(toks, st, TokenKind::Else);
                let (st, f) = sp_awaiting(toks, n, st, TokenKind::End);
                let st = st_consume_if(toks, st, TokenKind::End);
                let end = span_at(toks, n, st);
                (
                    st,
                    Expr {
                        kind: ExprKind::If(
                            IfExpr {
                                cond: Box::new(c),
                                true_expr: Box::new(t),
                                false_expr: Box::new(f),
                            },
                        ),
                        span: Span { start: start.start, end: end.start },
                    },
                )
            }
        }
    }
}

/// A parenthesized expression `(e)`.
pub open spec fn sp_paren(toks: Seq<Token>, n: usize, st0: PState) -> (PState, Expr)
    decreases st0.steps, 0nat,
{
    let (ok, st) = st_step(st0);
    if !ok {
        (st, leaf_x(toks, n, st))
    } else {
        let start = span_at(toks, n, st);
        let st = st_consume_if(toks, st, TokenKind::Lparen);
        let (st, inner) = sp_awaiting(toks, n, st, TokenKind::Rparen);
        let st = st_consume_if(toks, st, TokenKind::Rparen);
        let end = span_at(toks, n, st);
        (st, paren_at(inner, Span { start: start.start, end: end.start }))
    }
}

/// One operand: the construct that the current token opens, the signature
/// tree for the signature word, or the generation fallback.
pub open spec fn sp_primary(toks: Seq<Token>, n: usize, st0: PState) -> (PState, Expr)
    decreases st0.steps, 0nat,
{
    let (ok, st) = st_step(st0);
    if !ok {
        (st, leaf_x(toks, n, st))
    } else if !(0 <= st.cursor < toks.len()) {
        sp_choose(toks, n, st)
    } else {
        let t = toks[st.cursor];
        let span = t.span;
        let (st1, e) = match t.kind {
            TokenKind::Minus => sp_neg(toks, n, st),
            TokenKind::Lparen => sp_paren(toks, n, st),
            TokenKind::Lbrace => sp_color(toks, n, st),
            TokenKind::Bar => sp_abs(toks, n, st),
            TokenKind::If => sp_if(toks, n, st),
            TokenKind::X => (st_consume(toks, st), Expr { kind: ExprKind::X, span }),
            TokenKind::Y => (st_consume(toks, st), Expr { kind: ExprKind::Y, span }),
            TokenKind::R => (st_consume(toks, st), Expr { kind: ExprKind::R, span }),
            TokenKind::A => (st_consume(toks, st), Expr { kind: ExprKind::A, span }),
            TokenKind::Number(_) => (
                st_consume(toks, st),
                Expr { kind: ExprKind::Number(Literal::Written(span)), span },
            ),
            TokenKind::Sin => sp_function(toks, n, st, true),
            TokenKind::Cos => sp_function(toks, n, st, false),
            _ => if signature_ahead(toks, st) {
                sp_cornelia(toks, n, st)
            } else {
                sp_choose(toks, n, st)
            },
        };
        (
            if st1.not_number > 0 {
                PState { not_number: (st1.not_number - 1) as u64, ..st1 }
            } else {
                st1
            },
            e,
        )
    }
}

/// Precedence climbing from `left` (or a fresh operand) over operators of at
/// least `min_prec`.
pub open spec fn sp_binary(
    toks: Seq<Token>,
    n: usize,
    st0: PState,
    left: Option<Expr>,
    min_prec: u8,
) -> (PState, Expr)
    decreases st0.steps, 0nat,
{
    let (ok, st) = st_step(st0);
    if !ok {
        (
            st,
            match left {
                Some(e) => e,
                None => leaf_x(toks, n, st),
            },
        )
    } else {
        let (st, l) = match left {
            Some(e) => (st, e),
            None => sp_primary(toks, n, st),
        };
        if st.steps >= st0.steps {
            (st, l)
        } else {
            sp_outer(toks, n, st, l, l.span, min_prec)
        }
    }
}

/// The operator loop of precedence climbing, from state `st0` with `left`
/// parsed so far.
pub open spec fn sp_outer(
    toks: Seq<Token>,
    n: usize,
    st0: PState,
    left: Expr,
    start: Span,
    min_prec: u8,
) -> (PState, Expr)
    decreases st0.steps, 0nat,
{
    let st = st_skip(toks, st0);
    if st.cursor >= toks.len() {
        (st, left)
    } else {
        let (ok, st) = st_step(st);
        if !ok {
            (st, left)
        } else {
            let (hit, st) = interest_at(toks, st);
            if hit {
                (st, left)
            } else {
                let (op, st) = bin_op_at(toks, st);
                if prec(op) < min_prec {
                    (st, left)
                } else {
                    let st = st_consume(toks, st);
                    let (st, right) = sp_primary(toks, n, st);
                    if st.steps >= st0.steps {
                        (st, left)
                    } else {
                        let (st, ret, right) = sp_inner(toks, n, st, op, left, right, start);
                        match ret {
                            Some(e) => (st, e),
                            None => if st.steps >= st0.steps {
                                (st, left)
                            } else {
                                sp_outer(toks, n, st, bin_node(op, left, right, start), start, min_prec)
                            },
                        }
                    }
                }
            }
        }
    }
}

/// What the operator loop yields after its right operand is extended to
/// `inner`.
pub open spec fn outer_tail(
    toks: Seq<Token>,
    n: usize,
    inner: (PState, Option<Expr>, Expr),
    op: BinOp,
    left: Expr,
    start: Span,
    min_prec: u8,
    bound: u64,
) -> (PState, Expr) {
    match inner.1 {
        Some(e) => (inner.0, e),
        None => if inner.0.steps >= bound {
            (inner.0, left)
        } else {
            sp_outer(toks, n, inner.0, bin_node(op, left, inner.2, start), start, min_prec)
        },
    }
}

/// The loop that extends the right operand of `op` with tighter operators;
/// `Some` where the whole chain ends early.
pub open spec fn sp_inner(
    toks: Seq<Token>,
    n: usize,
    st0: PState,
    op: BinOp,
    left: Expr,
    right: Expr,
    start: Span,
) -> (PState, Option<Expr>, Expr)
    decreases st0.steps, 0nat,
{
    let st = st_skip(toks, st0);
    if st.cursor >= toks.len() {
        (st, None, right)
    } else {
        let (ok, st) = st_step(st);
        if !ok {
            (st, None, right)
        } else {
            let (hit, st) = interest_at(toks, st);
            if hit {
                (st, Some(bin_node(op, left, right, start)), right)
            } else {
                let (rop, st) = bin_op_at(toks, st);
                if prec(rop) <= prec(op) {
                    (st, None, right)
                } else {
                    let (st, right) = sp_binary(toks, n, st, Some(right), prec(rop));
                    let (hit2, st) = interest_at(toks, st);
                    if hit2 {
                        (st, None, right)
                    } else if st.steps >= st0.steps {
                        (st, None, right)
                    } else {
                        sp_inner(toks, n, st, op, left, right, start)
                    }
                }
            }
        }
    }
}

/// The state of a parser at the start of `toks`, with seed `seed`.
pub open spec fn start_state(toks: Seq<Token>, seed: u64) -> PState {
    PState { cursor: 0, stack: Seq::empty(), seed, not_number: 0, steps: budget(toks.len()) }
}

/// The tree that one parse of `toks` yields, for a source of `n` bytes,
/// starting from seed `seed`.
pub open spec fn parse_spec(toks: Seq<Token>, n: usize, seed: u64) -> Expr {
    sp_expr(toks, n, start_state(toks, seed)).1
}

impl Parser {
    pub open spec fn view(&self) -> PState {
        PState {
            cursor: self.cursor as int,
            stack: self.looking_for@,
            seed: self.seed,
            not_number: self.not_number,
            steps: self.steps,
        }
    }

    pub open spec fn wf(&self) -> bool {
        self.cursor <= self.tokens@.len()
    }

    /// What every parsing step keeps: the tokens, the source length and the
    /// context stack; the cursor only moves forward and the budget only shrinks.
    pub open spec fn keeps(&self, next: &Parser) -> bool {
        &&& next.tokens@ == self.tokens@
        &&& next.source_len == self.source_len
        &&& next.looking_for@ == self.looking_for@
        &&& self.cursor <= next.cursor <= next.tokens@.len()
        &&& next.steps <= self.steps
    }

    /// A parser at the start of `tokens`, for a source of `source_len` bytes.
    pub fn new(tokens: Vec<Token>, source_len: usize) -> (r: Parser)
        ensures
            r.tokens@ == tokens@,
            r.source_len == source_len,
            r.cursor == 0,
            r.looking_for@.len() == 0,
            r.seed == 0,
            r.not_number == 0,
            r.steps == budget(tokens@.len()),
            r.wf(),
            r@ == start_state(tokens@, 0),
    {
        let steps = Self::initial_steps(tokens.len());
        let r = Parser {
            source_len,
            tokens,
            cursor: 0,
            looking_for: Vec::new(),
            seed: 0,
            not_number: 0,
            steps,
        };
        assert(r.looking_for@ =~= Seq::<TokenKind>::empty());
        r
    }

    fn initial_steps(n: usize) -> (r: u64)
        ensures
            r == budget(n as nat),
    {
        if (n as u64) < 0x1_0000_0000 {
            0x100_0000 + 256 * (n as u64)
        } else {
            u64::MAX
        }
    }

    /// Back to the start of the tokens, with the seed at zero.
    fn reset(&mut self)
        ensures
            final(self).tokens@ == old(self).tokens@,
            final(self).source_len == old(self).source_len,
            final(self).cursor == 0,
            final(self).looking_for@.len() == 0,
            final(self).seed == 0,
            final(self).not_number == 0,
            final(self).steps == budget(old(self).tokens@.len()),
            final(self).wf(),
            final(self)@ == start_state(old(self).tokens@, 0),
    {
        self.cursor = 0;
        self.looking_for.clear();
        self.seed = 0;
        self.not_number = 0;
        self.steps = Self::initial_steps(self.tokens.len());
        assert(self.looking_for@ =~= Seq::<TokenKind>::empty());
    }

    /// The token at `offset` from the cursor.
    fn peak(&self, offset: usize) -> (r: Option<TokenKind>)
        ensures
            r == (if self.cursor + offset < self.tokens@.len() {
                Some(self.tokens@[self.cursor + offset].kind)
            } else {
                None
            }),
    {
        if self.cursor < self.tokens.len() && offset < self.tokens.len() - self.cursor {
            Some(self.tokens[self.cursor + offset].kind)
        } else {
            None
        }
    }

    /// Advances the seed and returns its new value.
    fn seed(&mut self) -> (r: u64)
        ensures
            final(self)@ == st_seed(old(self)@),
            r == next_seed(old(self).seed),
            final(self).seed == r,
            final(self).tokens == old(self).tokens,
            final(self).source_len == old(self).source_len,
            final(self).cursor == old(self).cursor,
            final(self).looking_for == old(self).looking_for,
            final(self).not_number == old(self).not_number,
            final(self).steps == old(self).steps,
    {
        self.seed = if self.seed < u64::MAX {
            self.seed + 1
        } else {
            0
        };
        self.seed
    }

    fn current(&self) -> (r: Option<Token>)
        ensures
            r == (if self.cursor < self.tokens@.len() {
                Some(self.tokens@[self.cursor as int])
            } else {
                None
            }),
    {
        if self.cursor < self.tokens.len() {
            Some(self.tokens[self.cursor])
        } else {
            None
        }
    }

    fn consume_whitespace(&mut self)
        requires
            old(self).wf(),
        ensures
            final(self).cursor == skip_ws(old(self).tokens@, old(self).cursor as int),
            old(self).cursor <= final(self).cursor,
            final(self).wf(),
            final(self).tokens == old(self).tokens,
            final(self).source_len == old(self).source_len,
            final(self).looking_for == old(self).looking_for,
            final(self).seed == old(self).seed,
            final(self).not_number == old(self).not_number,
            final(self).steps == old(self).steps,
    {
        while self.cursor < self.tokens.len() && self.tokens[self.cursor].kind
            == TokenKind::Whitespace
            invariant
                self.wf(),
                old(self).cursor <= self.cursor,
                skip_ws(self.tokens@, self.cursor as int) == skip_ws(
                    old(self).tokens@,
                    old(self).cursor as int,
                ),
                self.tokens == old(self).tokens,
                self.source_len == old(self).source_len,
                self.looking_for == old(self).looking_for,
                self.seed == old(self).seed,
                self.not_number == old(self).not_number,
                self.steps == old(self).steps,
            decreases self.tokens@.len() - self.cursor,
        {
            self.cursor = self.cursor + 1;
        }
    }

    /// Takes the current token and the whitespace after it.
    fn consume(&mut self) -> (r: Option<Token>)
        requires
            old(self).wf(),
        ensures
            final(self)@ == st_consume(old(self).tokens@, old(self)@),
            final(self).wf(),
            final(self).tokens == old(self).tokens,
            final(self).source_len == old(self).source_len,
            final(self).looking_for == old(self).looking_for,
            final(self).seed == old(self).seed,
            final(self).not_number == old(self).not_number,
            final(self).steps == old(self).steps,
            old(self).cursor < old(self).tokens@.len() ==> old(self).cursor < final(self).cursor,
            old(self).cursor < old(self).tokens@.len() ==> r == Some(
                old(self).tokens@[old(self).cursor as int],
            ) && final(self).cursor == skip_ws(old(self).tokens@, old(self).cursor + 1),
            old(self).cursor >= old(self).tokens@.len() ==> r.is_none() && final(self).cursor
                == old(self).cursor,
    {
        let t = self.current()?;
        let len = self.tokens.len();
        assert(self.cursor < len);
        self.cursor = self.cursor + 1;
        proof {
            lemma_skip_ws(self.tokens@, self.cursor as int);
        }
        self.consume_whitespace();
        Some(t)
    }

    /// Takes the current token and the whitespace after it when the token is
    /// of kind `kind`.
    fn consume_if(&mut self, kind: TokenKind) -> (r: Option<Token>)
        requires
            old(self).wf(),
        ensures
            final(self)@ == st_consume_if(old(self).tokens@, old(self)@, kind),
            final(self).wf(),
            final(self).tokens == old(self).tokens,
            final(self).source_len == old(self).source_len,
            final(self).looking_for == old(self).looking_for,
            final(self).seed == old(self).seed,
            final(self).not_number == old(self).not_number,
            final(self).steps == old(self).steps,
            old(self).cursor <= final(self).cursor,
            ({
                let c = old(self).cursor as int;
                let toks = old(self).tokens@;
                if c < toks.len() && toks[c].kind == kind {
                    r == Some(toks[c]) && final(self).cursor == skip_ws(toks, c + 1)
                } else {
                    r.is_none() && final(self).cursor == c
                }
            }),
    {
        let t = self.current()?;
        if t.kind == kind {
            self.consume();
            Some(t)
        } else {
            None
        }
    }

    /// The span of the current token; an empty span at the end of the source
    /// once the tokens are used up.
    fn current_span(&self) -> (r: Span)
        ensures
            r == span_at(self.tokens@, self.source_len, self@),
            r == (if self.cursor < self.tokens@.len() {
                self.tokens@[self.cursor as int].span
            } else {
                Span { start: self.source_len, end: self.source_len }
            }),
    {
        match self.current() {
            Some(t) => t.span,
            None => Span { start: self.source_len, end: self.source_len },
        }
    }

    /// Whether only whitespace is left; skips it.
    fn is_done(&mut self) -> (r: bool)
        requires
            old(self).wf(),
        ensures
            final(self)@ == st_skip(old(self).tokens@, old(self)@),
            final(self).wf(),
            final(self).cursor == skip_ws(old(self).tokens@, old(self).cursor as int),
            old(self).cursor <= final(self).cursor,
            r == (final(self).cursor >= final(self).tokens@.len()),
            final(self).tokens == old(self).tokens,
            final(self).source_len == old(self).source_len,
            final(self).looking_for == old(self).looking_for,
            final(self).seed == old(self).seed,
            final(self).not_number == old(self).not_number,
            final(self).steps == old(self).steps,
    {
        self.consume_whitespace();
        self.cursor >= self.tokens.len()
    }

    /// A made-up operator: the weighted choice over the operators, driven by
    /// `n` and the next seed.
    fn choose_binop(&mut self, n: u64) -> (r: BinOp)
        ensures
            final(self).seed == next_seed(old(self).seed),
            r == binop_table(choice(n, final(self).seed, binop_weights())),
            final(self).tokens == old(self).tokens,
            final(self).source_len == old(self).source_len,
            final(self).cursor == old(self).cursor,
            final(self).looking_for == old(self).looking_for,
            final(self).not_number == old(self).not_number,
            final(self).steps == old(self).steps,
    {
        let s = self.seed();
        let w: [u64; 10] = [7, 7, 9, 9, 9, 6, 1, 1, 0, 0];
        assert(w@ == binop_weights());
        proof {
            reveal_with_fuel(sum_from, 11);
        }
        let i = pick(n, s, &w);
        if i == 0 {
            BinOp::Add
        } else if i == 1 {
            BinOp::Sub
        } else if i == 2 {
            BinOp::Mul
        } else if i == 3 {
            BinOp::Div
        } else if i == 4 {
            BinOp::Mod
        } else if i == 5 {
            BinOp::Pow
        } else if i == 6 {
            BinOp::And
        } else if i == 7 {
            BinOp::Or
        } else if i == 8 {
            BinOp::LessThan
        } else {
            BinOp::GreaterThan
        }
    }

    /// The operator at the cursor: the one the token spells, or a made-up one
    /// driven by the token (or by zero at the end of the tokens).
    fn get_bin_op(&mut self) -> (r: BinOp)
        ensures
            (r, final(self)@) == bin_op_at(old(self).tokens@, old(self)@),
            final(self).tokens == old(self).tokens,
            final(self).source_len == old(self).source_len,
            final(self).cursor == old(self).cursor,
            final(self).looking_for == old(self).looking_for,
            final(self).not_number == old(self).not_number,
            final(self).steps == old(self).steps,
            ({
                let c = old(self).cursor as int;
                let toks = old(self).tokens@;
                let n = if c < toks.len() {
                    ordinal(toks[c].kind)
                } else {
                    0
                };
                if c < toks.len() && spelled_op(toks[c].kind).is_some() {
                    r == spelled_op(toks[c].kind).unwrap() && final(self).seed == old(self).seed
                } else {
                    final(self).seed == next_seed(old(self).seed) && r == binop_table(
                        choice(n, final(self).seed, binop_weights()),
                    )
                }
            }),
    {
        let t = match self.current() {
            Some(t) => t,
            None => {
                return self.choose_binop(0);
            },
        };
        match t.kind {
            TokenKind::Plus => BinOp::Add,
            TokenKind::Minus => BinOp::Sub,
            TokenKind::Asterisk => BinOp::Mul,
            TokenKind::Slash => BinOp::Div,
            TokenKind::Procent => BinOp::Mod,
            TokenKind::Carrot => BinOp::Pow,
            TokenKind::Bar => BinOp::Or,
            TokenKind::And => BinOp::And,
            TokenKind::Less => BinOp::LessThan,
            TokenKind::Greater => BinOp::GreaterThan,
            k => self.choose_binop(k.as_usize()),
        }
    }

    /// Whether the current token may end the innermost construct: it is the
    /// awaited terminator, or an unknown byte that wins a one-in-four draw.
    /// Always advances the seed.
    fn is_at_interest(&mut self) -> (r: bool)
        ensures
            (r, final(self)@) == interest_at(old(self).tokens@, old(self)@),
            final(self).seed == next_seed(old(self).seed),
            final(self).tokens == old(self).tokens,
            final(self).source_len == old(self).source_len,
            final(self).cursor == old(self).cursor,
            final(self).looking_for == old(self).looking_for,
            final(self).not_number == old(self).not_number,
            final(self).steps == old(self).steps,
            ({
                let c = old(self).cursor as int;
                let toks = old(self).tokens@;
                let stack = old(self).looking_for@;
                r == (stack.len() > 0 && c < toks.len() && (toks[c].kind == stack.last() || (
                toks[c].kind is Other && choice(
                    ordinal(toks[c].kind),
                    final(self).seed,
                    seq![1u64, 3],
                ) == 0)))
            }),
    {
        let s = self.seed();
        let n = self.looking_for.len();
        if n > 0 {
            let interest = self.looking_for[n - 1];
            if let Some(t) = self.current() {
                if t.kind == interest {
                    return true;
                }
                if let TokenKind::Other(_) = t.kind {
                    let w: [u64; 2] = [1, 3];
                    assert(w@ == seq![1u64, 3]);
                    proof {
                        reveal_with_fuel(sum_from, 3);
                    }
                    return pick(t.kind.as_usize(), s, &w) == 0;
                }
            }
        }
        false
    }
}

impl Parser {
    /// Takes one unit of the work budget; `false` once it is spent.
    fn take_step(&mut self) -> (r: bool)
        ensures
            (r, final(self)@) == st_step(old(self)@),
            r == (old(self).steps > 0),
            final(self).steps == (if r {
                (old(self).steps - 1) as u64
            } else {
                old(self).steps
            }),
            final(self).tokens == old(self).tokens,
            final(self).source_len == old(self).source_len,
            final(self).cursor == old(self).cursor,
            final(self).looking_for == old(self).looking_for,
            final(self).seed == old(self).seed,
            final(self).not_number == old(self).not_number,
    {
        if self.steps == 0 {
            false
        } else {
            self.steps = self.steps - 1;
            true
        }
    }

    /// The leaf that stands in once the work budget is spent.
    fn fallback_leaf(&self) -> (r: Expr)
        ensures
            r == leaf_x(self.tokens@, self.source_len, self@),
            r.kind == ExprKind::X,
    {
        Expr { kind: ExprKind::X, span: self.current_span() }
    }

    /// Parses `e` with `kind` awaited as the terminator.
    fn parse_awaiting(&mut self, kind: TokenKind) -> (r: Expr)
        requires
            old(self).wf(),
        ensures
            (final(self)@, r) == sp_awaiting(old(self).tokens@, old(self).source_len, old(self)@, kind),
            old(self).keeps(&*final(self)),
        decreases old(self).steps, 2nat,
    {
        self.looking_for.push(kind);
        let e = self.parse_expr();
        self.looking_for.pop();
        proof {
            assert(self.looking_for@ =~= old(self).looking_for@);
        }
        e
    }

    /// The generation fallback: a made-up sub-expression, chosen by weight
    /// from the current token (or the seed at the end of the tokens).
    fn choose_token(&mut self) -> (r: Expr)
        requires
            old(self).wf(),
        ensures
            (final(self)@, r) == sp_choose(old(self).tokens@, old(self).source_len, old(self)@),
            old(self).keeps(&*final(self)),
        decreases old(self).steps, 0nat,
    {
        if !self.take_step() {
            return self.fallback_leaf();
        }
        let (n, lit, span) = match self.current() {
            Some(t) => (
                t.kind.as_usize(),
                Literal::Fixed { units: t.kind.as_tenths() as i64, places: 1 },
                t.span,
            ),
            None => {
                let n = self.seed();
                let f = self.seed();
                (
                    n,
                    Literal::Fixed { units: (f % 100) as i64, places: 2 },
                    Span { start: self.source_len, end: self.source_len },
                )
            },
        };
        let depth = self.looking_for.len() as u64;
        let l: u64 = if depth < u64::MAX {
            depth + 1
        } else {
            u64::MAX
        };
        let num: u64 = if self.not_number == 0 {
            3
        } else {
            0
        };
        let cond: u64 = if l < 2 {
            l
        } else {
            2
        };
        let s = self.seed();
        let w: [u64; 11] = [5 / l, 2 / l, 1 / l, 1 / l, 4, 4, 2, 2, num, cond, 0];
        proof {
            reveal_with_fuel(sum_from, 12);
        }
        let i = pick(n, s, &w);
        if i == 0 {
            self.parse_color()
        } else if i == 1 {
            self.parse_parenthesized_expr()
        } else if i == 2 {
            self.parse_sin_expr()
        } else if i == 3 {
            self.parse_cos_expr()
        } else if i == 4 {
            Expr { kind: ExprKind::X, span }
        } else if i == 5 {
            Expr { kind: ExprKind::Y, span }
        } else if i == 6 {
            Expr { kind: ExprKind::R, span }
        } else if i == 7 {
            Expr { kind: ExprKind::A, span }
        } else if i == 8 {
            Expr { kind: ExprKind::Number(lit), span }
        } else if i == 9 {
            self.parse_if_expr()
        } else {
            self.parse_neg_expr()
        }
    }

    /// A color triple `{r, g, b}`; missing delimiters are passed over.
    fn parse_color(&mut self) -> (r: Expr)
        requires
            old(self).wf(),
        ensures
            (final(self)@, r) == sp_color(old(self).tokens@, old(self).source_len, old(self)@),
            old(self).keeps(&*final(self)),
            r.kind is Color,
        decreases old(self).steps, 0nat,
    {
        let start = self.current_span();
        if !self.take_step() {
            let z = self.fallback_leaf();
            let o = self.fallback_leaf();
            let t = self.fallback_leaf();
            return Expr { kind: ExprKind::Color(ColorExpr::new(z, o, t)), span: start };
        }
        self.consume_if(TokenKind::Lbrace);
        let r = self.parse_awaiting(TokenKind::Comma);
        self.consume_if(TokenKind::Comma);
        let g = self.parse_awaiting(TokenKind::Comma);
        self.consume_if(TokenKind::Comma);
        let b = self.parse_awaiting(TokenKind::Rbrace);
        self.consume_if(TokenKind::Rbrace);
        let end = self.current_span();
        Expr {
            kind: ExprKind::Color(ColorExpr::new(r, g, b)),
            span: Span { start: start.start, end: end.start },
        }
    }

    /// A negation `-e`.
    fn parse_neg_expr(&mut self) -> (r: Expr)
        requires
            old(self).wf(),
        ensures
            (final(self)@, r) == sp_neg(old(self).tokens@, old(self).source_len, old(self)@),
            old(self).keeps(&*final(self)),
        decreases old(self).steps, 0nat,
    {
        if !self.take_step() {
            return self.fallback_leaf();
        }
        let start = self.current_span();
        self.consume_if(TokenKind::Minus);
        let inner = self.parse_expr();
        let end = if self.cursor > 0 {
            self.tokens[self.cursor - 1].span.end
        } else if self.source_len > 0 {
            self.source_len - 1
        } else {
            0
        };
        Expr {
            kind: ExprKind::Neg(NegExpr { inner: Box::new(inner) }),
            span: Span { start: start.start, end },
        }
    }

    /// An absolute value `|e|`.
    fn parse_abs_expr(&mut self) -> (r: Expr)
        requires
            old(self).wf(),
        ensures
            (final(self)@, r) == sp_abs(old(self).tokens@, old(self).source_len, old(self)@),
            old(self).keeps(&*final(self)),
        decreases old(self).steps, 0nat,
    {
        if !self.take_step() {
            return self.fallback_leaf();
        }
        let start = self.current_span();
        self.consume_if(TokenKind::Bar);
        let inner = self.parse_awaiting(TokenKind::Bar);
        self.consume_if(TokenKind::Bar);
        let end = self.current_span();
        Expr {
            kind: ExprKind::Abs(AbsExpr { inner: Box::new(inner) }),
            span: Span { start: start.start, end: end.start },
        }
    }

    /// A function call `name(e)`: a sine when `sine` holds, else a cosine.
    fn parse_function(&mut self, sine: bool) -> (r: Expr)
        requires
            old(self).wf(),
        ensures
            (final(self)@, r) == sp_function(old(self).tokens@, old(self).source_len, old(self)@, sine),
            old(self).keeps(&*final(self)),
        decreases old(self).steps, 0nat,
    {
        if !self.take_step() {
            return self.fallback_leaf();
        }
        let start = self.current_span();
        self.consume();
        self.consume_if(TokenKind::Lparen);
        let inner = self.parse_awaiting(TokenKind::Rparen);
        self.consume_if(TokenKind::Rparen);
        let end = self.current_span();
        let kind = if sine {
            ExprKind::Sin(SinExpr { inner: Box::new(inner) })
        } else {
            ExprKind::Cos(CosExpr { inner: Box::new(inner) })
        };
        Expr { kind, span: Span { start: start.start, end: end.end } }
    }

    fn parse_sin_expr(&mut self) -> (r: Expr)
        requires
            old(self).wf(),
        ensures
            (final(self)@, r) == sp_function(old(self).tokens@, old(self).source_len, old(self)@, true),
            old(self).keeps(&*final(self)),
        decreases old(self).steps, 1nat,
    {
        self.parse_function(true)
    }

    fn parse_cos_expr(&mut self) -> (r: Expr)
        requires
            old(self).wf(),
        ensures
            (final(self)@, r) == sp_function(old(self).tokens@, old(self).source_len, old(self)@, false),
            old(self).keeps(&*final(self)),
        decreases old(self).steps, 1nat,
    {
        self.parse_function(false)
    }

    /// A conditional `if c then t else f end`; no literal is made up while its
    /// condition is parsed.
    fn parse_if_expr(&mut self) -> (r: Expr)
        requires
            old(self).wf(),
        ensures
            (final(self)@, r) == sp_if(old(self).tokens@, old(self).source_len, old(self)@),
            old(self).keeps(&*final(self)),
        decreases old(self).steps, 0nat,
    {
        if !self.take_step() {
            return self.fallback_leaf();
        }
        let start = self.current_span();
        self.consume_if(TokenKind::If);
        if self.not_number < u64::MAX {
            self.not_number = self.not_number + 1;
        }
        let cond = self.parse_awaiting(TokenKind::Then);
        self.consume_if(TokenKind::Then);
        let t = self.parse_awaiting(TokenKind::Else);
        self.consume_if(TokenKind::Else);
        let f = self.parse_awaiting(TokenKind::End);
        self.consume_if(TokenKind::End);
        let end = self.current_span();
        Expr {
            kind: ExprKind::If(IfExpr::new(cond, t, f)),
            span: Span { start: start.start, end: end.start },
        }
    }

    /// A parenthesized expression `(e)`.
    fn parse_parenthesized_expr(&mut self) -> (r: Expr)
        requires
            old(self).wf(),
        ensures
            (final(self)@, r) == sp_paren(old(self).tokens@, old(self).source_len, old(self)@),
            old(self).keeps(&*final(self)),
        decreases old(self).steps, 0nat,
    {
        if !self.take_step() {
            return self.fallback_leaf();
        }
        let start = self.current_span();
        self.consume_if(TokenKind::Lparen);
        let inner = self.parse_awaiting(TokenKind::Rparen);
        self.consume_if(TokenKind::Rparen);
        let end = self.current_span();
        Expr {
            kind: ExprKind::Paren(ParenExpr { inner: Box::new(inner) }),
            span: Span { start: start.start, end: end.start },
        }
    }

    /// Whether the tokens from the cursor spell the signature word.
    fn at_signature(&self) -> (r: bool)
        ensures
            r == signature_ahead(self.tokens@, self@),
            r ==> self.cursor + 7 < self.tokens@.len(),
    {
        match self.peak(0) {
            Some(TokenKind::Other(c)) => {
                (c == 'C' || c == 'c') && self.peak(1) == Some(TokenKind::Other('o')) && self.peak(
                    2,
                ) == Some(TokenKind::R) && self.peak(3) == Some(TokenKind::Other('n'))
                    && self.peak(4) == Some(TokenKind::Other('e')) && self.peak(5) == Some(
                    TokenKind::Other('l'),
                ) && self.peak(6) == Some(TokenKind::Other('i')) && self.peak(7) == Some(
                    TokenKind::A,
                )
            },
            _ => false,
        }
    }

    /// Takes the eight tokens of the signature word and returns its tree.
    fn parse_cornelia(&mut self) -> (r: Expr)
        requires
            old(self).wf(),
        ensures
            (final(self)@, r) == sp_cornelia(old(self).tokens@, old(self).source_len, old(self)@),
            old(self).keeps(&*final(self)),
            final(self).seed == old(self).seed,
            final(self).not_number == old(self).not_number,
    {
        let start = self.current_span();
        let mut i: usize = 0;
        while i < 8
            invariant
                old(self).keeps(&*self),
                self.seed == old(self).seed,
                self.not_number == old(self).not_number,
                self@ == consume_n(old(self).tokens@, old(self)@, i as nat),
                i <= 8,
            decreases 8 - i,
        {
            self.consume();
            i = i + 1;
        }
        let end = if start.start < usize::MAX - 8 {
            start.start + 8
        } else {
            usize::MAX
        };
        cornelia_expr(Span { start: start.start, end })
    }

    /// One operand: the construct that the current token opens, or a made-up
    /// one where the token fits none.
    fn parse_primary_expr(&mut self) -> (r: Expr)
        requires
            old(self).wf(),
        ensures
            (final(self)@, r) == sp_primary(old(self).tokens@, old(self).source_len, old(self)@),
            old(self).keeps(&*final(self)),
        decreases old(self).steps, 0nat,
    {
        if !self.take_step() {
            return self.fallback_leaf();
        }
        let t = match self.current() {
            Some(t) => t,
            None => {
                return self.choose_token();
            },
        };
        let span = t.span;
        let e = match t.kind {
            TokenKind::Minus => self.parse_neg_expr(),
            TokenKind::Lparen => self.parse_parenthesized_expr(),
            TokenKind::Lbrace => self.parse_color(),
            TokenKind::Bar => self.parse_abs_expr(),
            TokenKind::If => self.parse_if_expr(),
            TokenKind::X => {
                self.consume();
                Expr { kind: ExprKind::X, span }
            },
            TokenKind::Y => {
                self.consume();
                Expr { kind: ExprKind::Y, span }
            },
            TokenKind::R => {
                self.consume();
                Expr { kind: ExprKind::R, span }
            },
            TokenKind::A => {
                self.consume();
                Expr { kind: ExprKind::A, span }
            },
            TokenKind::Number(_) => {
                self.consume();
                Expr { kind: ExprKind::Number(Literal::Written(span)), span }
            },
            TokenKind::Sin => self.parse_sin_expr(),
            TokenKind::Cos => self.parse_cos_expr(),
            _ => {
                if self.at_signature() {
                    self.parse_cornelia()
                } else {
                    self.choose_token()
                }
            },
        };
        if self.not_number > 0 {
            self.not_number = self.not_number - 1;
        }
        e
    }

    /// Precedence climbing from `left` (or a fresh operand): operators of at
    /// least `min_precedence` are taken, and the chain ends early wherever
    /// the current token may end the innermost construct.
    fn parse_binary_expr(&mut self, first: Option<Expr>, min_precedence: u8) -> (r: Expr)
        requires
            old(self).wf(),
        ensures
            (final(self)@, r) == sp_binary(old(self).tokens@, old(self).source_len, old(self)@, first, min_precedence),
            old(self).keeps(&*final(self)),
        decreases old(self).steps, 0nat,
    {
        let ghost old_left = first;
        if !self.take_step() {
            return match first {
                Some(e) => e,
                None => self.fallback_leaf(),
            };
        }
        let ghost toks = old(self).tokens@;
        let ghost n = old(self).source_len;
        let ghost after_step = self@;
        let mut left = match first {
            Some(e) => e,
            None => self.parse_primary_expr(),
        };
        let start_span = left.span;
        let ghost result = sp_outer(toks, n, self@, left, start_span, min_precedence);
        assert(sp_binary(toks, n, old(self)@, old_left, min_precedence) == result);
        loop
            invariant_except_break
                sp_outer(toks, n, self@, left, start_span, min_precedence) == result,
            invariant
                old(self).keeps(&*self),
                self.steps < old(self).steps,
                toks == self.tokens@,
                n == self.source_len,
                result == sp_binary(toks, n, old(self)@, old_left, min_precedence),
                old_left == first,
            ensures
                (self@, left) == result,
            decreases self.steps,
        {
            let ghost round_start = self@;
            let ghost round_left = left;
            assert(sp_outer(toks, n, round_start, round_left, start_span, min_precedence) == result);
            if self.is_done() {
                break;
            }
            if !self.take_step() {
                break;
            }
            if self.is_at_interest() {
                assert(sp_outer(toks, n, round_start, round_left, start_span, min_precedence) == (
                self@, left));
                return left;
            }
            let op = self.get_bin_op();
            if op.precedence() < min_precedence {
                break;
            }
            self.consume();
            let mut right = self.parse_primary_expr();
            let ghost inner = sp_inner(toks, n, self@, op, left, right, start_span);
            assert(self.steps < round_start.steps);
            assert(sp_outer(toks, n, round_start, round_left, start_span, min_precedence) == outer_tail(
                toks,
                n,
                inner,
                op,
                round_left,
                start_span,
                min_precedence,
                round_start.steps,
            ));
            assert(round_start.steps > self.steps);
            loop
                invariant_except_break
                    sp_inner(toks, n, self@, op, left, right, start_span) == inner,
                invariant
                    old(self).keeps(&*self),
                    self.steps < round_start.steps <= old(self).steps,
                    toks == self.tokens@,
                    n == self.source_len,
                    round_left == left,
                    outer_tail(toks, n, inner, op, round_left, start_span, min_precedence, round_start.steps)
                        == result,
                    result == sp_binary(toks, n, old(self)@, old_left, min_precedence),
                    old_left == first,
                ensures
                    inner == (self@, None::<Expr>, right),
                    self.steps < round_start.steps,
                decreases self.steps,
            {
                let ghost inner_start = self@;
                if self.is_done() {
                    break;
                }
                if !self.take_step() {
                    break;
                }
                if self.is_at_interest() {
                    let span = Span::from_spans(&start_span, &right.span);
                    let ghost whole = bin_node(op, left, right, start_span);
                    assert(sp_inner(toks, n, inner_start, op, left, right, start_span) == (
                    self@, Some(whole), right));
                    assert(inner == (self@, Some(whole), right));
                    return Expr { kind: ExprKind::Bin(BinExpr::new(op, left, right)), span };
                }
                let right_op = self.get_bin_op();
                if right_op.precedence() <= op.precedence() {
                    break;
                }
                right = self.parse_binary_expr(Some(right), right_op.precedence());
                if self.is_at_interest() {
                    break;
                }
                assert(self.steps < inner_start.steps);
            }
            let span = Span::from_spans(&start_span, &right.span);
            left = Expr { kind: ExprKind::Bin(BinExpr::new(op, left, right)), span };
        }
        left
    }

    /// One whole expression.
    pub fn parse_expr(&mut self) -> (r: Expr)
        requires
            old(self).wf(),
        ensures
            (final(self)@, r) == sp_expr(old(self).tokens@, old(self).source_len, old(self)@),
            old(self).keeps(&*final(self)),
        decreases old(self).steps, 1nat,
    {
        self.parse_binary_expr(None, 0)
    }
}

/// Parses the bytes of `source` once, with no folding and no retry.
pub fn parse_source(source: Vec<u8>) -> (r: Expr)
    ensures
        r == parse_spec(tokens_from(source@, 0), source@.len() as usize, 0),
{
    let n = source.len();
    let tokens = tokenize(source);
    let mut parser = Parser::new(tokens, n);
    parser.parse_expr()
}

/// Parses `source` with the retry loop of [`parse_tokens`].
pub fn compile_source<F: Fn(Expr) -> Expr>(source: Vec<u8>, fold: F) -> (r: Expr)
    requires
        forall|e: Expr| #[trigger] fold.requires((e,)),
    ensures
        retried(tokens_from(source@, 0), source@.len() as usize, fold, r),
{
    let n = source.len();
    let tokens = tokenize(source);
    let r = parse_attempts(tokens, n, fold, || {});
    r.0
}

/// Parses the tokens, folds the tree with `fold` and, while the folded tree is
/// constant, parses again with the next seed: at most [`MAX_TRIES`] parses.
/// The first folded tree that is not constant is returned; when there is none,
/// the last parse is returned as it is. `on_retry` is called before each new
/// parse.
pub fn parse_tokens<F: Fn(Expr) -> Expr, G: Fn()>(
    tokens: Vec<Token>,
    source_len: usize,
    fold: F,
    on_retry: G,
) -> (r: Expr)
    requires
        forall|e: Expr| #[trigger] fold.requires((e,)),
        on_retry.requires(()),
    ensures
        retried(tokens@, source_len, fold, r),
{
    let r = parse_attempts(tokens, source_len, fold, on_retry);
    r.0
}

/// What the retry loop returns after `count` parses: either the folded tree of
/// parse number `count` (seeds count from zero), not constant, while every
/// earlier parse folded to a constant tree; or, after [`MAX_TRIES`] parses, the
/// last parse as it is.
pub open spec fn attempts_made<F: Fn(Expr) -> Expr>(
    toks: Seq<Token>,
    n: usize,
    fold: F,
    r: Expr,
    count: u64,
) -> bool {
    &&& 1 <= count <= MAX_TRIES
    &&& forall|k: int| 0 <= k < count - 1 ==> #[trigger] folds_flat(toks, n, fold, k)
    &&& if count < MAX_TRIES {
        fold.ensures((parse_spec(toks, n, (count - 1) as u64),), r) && !constant(r)
    } else {
        r == parse_spec(toks, n, (MAX_TRIES - 1) as u64)
    }
}

/// Parse number `k` has a folded tree that is constant.
pub open spec fn folds_flat<F: Fn(Expr) -> Expr>(toks: Seq<Token>, n: usize, fold: F, k: int) -> bool {
    exists|f: Expr| fold.ensures((parse_spec(toks, n, k as u64),), f) && constant(f)
}

/// `r` is what the retry loop returns for some number of parses.
pub open spec fn retried<F: Fn(Expr) -> Expr>(toks: Seq<Token>, n: usize, fold: F, r: Expr) -> bool {
    exists|count: u64| attempts_made(toks, n, fold, r, count)
}

/// The retry loop of [`parse_tokens`], with the number of parses it made.
pub fn parse_attempts<F: Fn(Expr) -> Expr, G: Fn()>(
    tokens: Vec<Token>,
    source_len: usize,
    fold: F,
    on_retry: G,
) -> (r: (Expr, u64))
    requires
        forall|e: Expr| #[trigger] fold.requires((e,)),
        on_retry.requires(()),
    ensures
        1 <= r.1 <= MAX_TRIES,
        attempts_made(tokens@, source_len, fold, r.0, r.1),
        (forall|e: Expr, f: Expr| fold.ensures((e,), f) ==> constant(f)) ==> r.1 == MAX_TRIES,
{
    let mut parser = Parser::new(tokens, source_len);
    let mut expr = parser.parse_expr();
    let mut retry: u64 = 1;
    while retry < MAX_TRIES
        invariant
            1 <= retry <= MAX_TRIES,
            parser.wf(),
            parser.tokens@ == tokens@,
            parser.source_len == source_len,
            forall|e: Expr| #[trigger] fold.requires((e,)),
            on_retry.requires(()),
            expr == parse_spec(tokens@, source_len, (retry - 1) as u64),
            forall|k: int| 0 <= k < retry - 1 ==> #[trigger] folds_flat(tokens@, source_len, fold, k),
        decreases MAX_TRIES - retry,
    {
        let ghost attempt = expr;
        let folded = fold(expr);
        if !folded.is_constant() {
            return (folded, retry);
        }
        assert(fold.ensures((parse_spec(tokens@, source_len, (retry - 1) as u64),), folded));
        assert(folds_flat(tokens@, source_len, fold, retry - 1));
        on_retry();
        parser.reset();
        parser.seed = retry;
        assert(parser@ == start_state(tokens@, retry));
        expr = parser.parse_expr();
        retry = retry + 1;
    }
    (expr, retry)
}

/// Parsing is deterministic: equal sources give equal token lists, and equal
/// token lists parsed from the same seed give the same tree, so two calls of
/// [`parse_source`] on equal bytes return equal trees.
pub proof fn law_parse_deterministic(a: Seq<u8>, b: Seq<u8>, seed: u64)
    requires
        a == b,
    ensures
        tokens_from(a, 0) == tokens_from(b, 0),
        parse_spec(tokens_from(a, 0), a.len() as usize, seed) == parse_spec(
            tokens_from(b, 0),
            b.len() as usize,
            seed,
        ),
{
}

/// Parsing is total and bounded: whatever the tokens and however the folding
/// turns out, the retry loop ends after one to [`MAX_TRIES`] parses; and when
/// every folded tree is constant it makes exactly [`MAX_TRIES`] parses and
/// returns the last parse.
pub proof fn law_retry_bound<F: Fn(Expr) -> Expr>(
    toks: Seq<Token>,
    n: usize,
    fold: F,
    r: Expr,
    count: u64,
)
    requires
        attempts_made(toks, n, fold, r, count),
    ensures
        1 <= count <= MAX_TRIES,
        (forall|e: Expr, f: Expr| fold.ensures((e,), f) ==> constant(f)) ==> count == MAX_TRIES
            && r == parse_spec(toks, n, (MAX_TRIES - 1) as u64),
{
}

} // verus!
