//! The tokenizer: a total, byte-oriented scan that classifies every byte.
use vstd::prelude::*;

use crate::text::Span;

verus! {

/// A token: its kind and the bytes of the source it covers.
#[derive(Debug, Clone, Copy, PartialEq, Eq, Structural)]
pub struct Token {
    pub kind: TokenKind,
    pub span: Span,
}

/// The kinds of token.
#[derive(Debug, Clone, Copy, PartialEq, Eq, Structural)]
pub enum TokenKind {
    Plus,
    Minus,
    Asterisk,
    Slash,
    Procent,
    Carrot,
    Less,
    Greater,
    Equal,
    Exclamation,
    Lparen,
    Rparen,
    Lbrace,
    Rbrace,
    Bar,
    And,
    /// A decimal literal, carrying the number derived from its fractional digits
    /// (see [`frac_ordinal`]); its digits are the bytes of the token's span.
    Number(u64),
    X,
    Y,
    R,
    A,
    TX,
    TY,
    Comma,
    Sin,
    Cos,
    If,
    Then,
    Else,
    End,
    Whitespace,
    /// Any other byte, as the character of the same value.
    Other(char),
}

/// The number that each kind of token stands for in the parser's choices.
pub open spec fn ordinal(k: TokenKind) -> u64 {
    match k {
        TokenKind::X => 0,
        TokenKind::Y => 1,
        TokenKind::A => 2,
        TokenKind::R => 3,
        TokenKind::TX => 4,
        TokenKind::TY => 5,
        TokenKind::Plus => 4,
        TokenKind::Minus => 5,
        TokenKind::Asterisk => 6,
        TokenKind::Slash => 7,
        TokenKind::Procent => 8,
        TokenKind::Less => 9,
        TokenKind::Greater => 10,
        TokenKind::Equal => 11,
        TokenKind::Exclamation => 12,
        TokenKind::Carrot => 13,
        TokenKind::Lparen => 14,
        TokenKind::Rparen => 15,
        TokenKind::Lbrace => 16,
        TokenKind::Rbrace => 17,
        TokenKind::Bar => 18,
        TokenKind::And => 19,
        TokenKind::Comma => 20,
        TokenKind::Whitespace => 21,
        TokenKind::Sin => 22,
        TokenKind::Cos => 23,
        TokenKind::If => 24,
        TokenKind::Then => 25,
        TokenKind::Else => 26,
        TokenKind::End => 27,
        TokenKind::Number(n) => n,
        TokenKind::Other(c) => c as u64,
    }
}

impl TokenKind {
    /// The number that this kind of token stands for in the parser's choices.
    pub fn as_usize(&self) -> (r: u64)
        ensures
            r == ordinal(*self),
    {
        match self {
            TokenKind::X => 0,
            TokenKind::Y => 1,
            TokenKind::A => 2,
            TokenKind::R => 3,
            TokenKind::TX => 4,
            TokenKind::TY => 5,
            TokenKind::Plus => 4,
            TokenKind::Minus => 5,
            TokenKind::Asterisk => 6,
            TokenKind::Slash => 7,
            TokenKind::Procent => 8,
            TokenKind::Less => 9,
            TokenKind::Greater => 10,
            TokenKind::Equal => 11,
            TokenKind::Exclamation => 12,
            TokenKind::Carrot => 13,
            TokenKind::Lparen => 14,
            TokenKind::Rparen => 15,
            TokenKind::Lbrace => 16,
            TokenKind::Rbrace => 17,
            TokenKind::Bar => 18,
            TokenKind::And => 19,
            TokenKind::Comma => 20,
            TokenKind::Whitespace => 21,
            TokenKind::Sin => 22,
            TokenKind::Cos => 23,
            TokenKind::If => 24,
            TokenKind::Then => 25,
            TokenKind::Else => 26,
            TokenKind::End => 27,
            TokenKind::Number(n) => *n,
            TokenKind::Other(c) => *c as u64,
        }
    }

    /// The tenths digit derived from the kind: the literal `0.d` that the kind
    /// stands for when the parser makes up a number from it.
    pub fn as_tenths(&self) -> (r: u64)
        ensures
            r == ordinal(*self) % 10,
            r < 10,
    {
        self.as_usize() % 10
    }
}

pub open spec fn is_digit(b: u8) -> bool {
    48 <= b <= 57
}

/// The bytes that stand for whitespace characters (`char::is_whitespace` on
/// the character of the same value).
pub open spec fn is_space(b: u8) -> bool {
    b == 9 || b == 10 || b == 11 || b == 12 || b == 13 || b == 32 || b == 0x85 || b == 0xA0
}

pub open spec fn byte_at(s: Seq<u8>, i: int, b: u8) -> bool {
    0 <= i < s.len() && s[i] == b
}

/// The length of the run of ASCII digits that starts at `i`.
pub open spec fn digit_run(s: Seq<u8>, i: int) -> nat
    decreases s.len() - i,
{
    if 0 <= i < s.len() && is_digit(s[i]) {
        1 + digit_run(s, i + 1)
    } else {
        0
    }
}

/// Whether the digit run at `i` is followed by a dot and a further digit.
pub open spec fn has_fraction(s: Seq<u8>, i: int) -> bool {
    let w = digit_run(s, i) as int;
    byte_at(s, i + w, 46) && 0 <= i + w + 1 < s.len() && is_digit(s[i + w + 1])
}

/// The length of the decimal literal that starts at `i`: a digit run, and a
/// dot with a second digit run where one follows.
pub open spec fn number_len(s: Seq<u8>, i: int) -> int {
    let w = digit_run(s, i) as int;
    if has_fraction(s, i) {
        w + 1 + digit_run(s, i + w + 1)
    } else {
        w
    }
}

/// The fractional digits of the decimal literal that starts at `i`.
pub open spec fn fraction_digits(s: Seq<u8>, i: int) -> Seq<u8> {
    let w = digit_run(s, i) as int;
    if has_fraction(s, i) {
        s.subrange(i + w + 1, i + number_len(s, i))
    } else {
        Seq::empty()
    }
}

pub open spec fn pow64() -> nat {
    0x1_0000_0000_0000_0000
}

/// `floor(0.d1d2...dk * 2^64)` for the fractional digits `d1...dk`, written
/// digit by digit: `floor((d1 * 2^64 + floor(0.d2...dk * 2^64)) / 10)`.
pub open spec fn frac_ordinal(ds: Seq<u8>) -> nat
    decreases ds.len(),
{
    if ds.len() == 0 {
        0
    } else {
        (((ds[0] - 48) * pow64() + frac_ordinal(ds.drop_first())) / 10) as nat
    }
}

/// The kind and the length of the token that starts at `i`.
pub open spec fn token_at(s: Seq<u8>, i: int) -> (TokenKind, int) {
    let b = s[i];
    if b == 43 {
        (TokenKind::Plus, 1)
    } else if b == 45 {
        (TokenKind::Minus, 1)
    } else if b == 42 {
        (TokenKind::Asterisk, 1)
    } else if b == 47 {
        (TokenKind::Slash, 1)
    } else if b == 37 {
        (TokenKind::Procent, 1)
    } else if b == 94 {
        (TokenKind::Carrot, 1)
    } else if b == 40 {
        (TokenKind::Lparen, 1)
    } else if b == 41 {
        (TokenKind::Rparen, 1)
    } else if b == 123 {
        (TokenKind::Lbrace, 1)
    } else if b == 125 {
        (TokenKind::Rbrace, 1)
    } else if b == 44 {
        (TokenKind::Comma, 1)
    } else if b == 124 {
        (TokenKind::Bar, 1)
    } else if b == 38 {
        (TokenKind::And, 1)
    } else if b == 60 {
        (TokenKind::Less, 1)
    } else if b == 62 {
        (TokenKind::Greater, 1)
    } else if b == 61 {
        (TokenKind::Equal, 1)
    } else if b == 33 {
        (TokenKind::Exclamation, 1)
    } else if b == 120 {
        (TokenKind::X, 1)
    } else if b == 121 {
        (TokenKind::Y, 1)
    } else if b == 97 {
        (TokenKind::A, 1)
    } else if b == 114 {
        (TokenKind::R, 1)
    } else if b == 116 && byte_at(s, i + 1, 120) {
        (TokenKind::TX, 2)
    } else if b == 116 && byte_at(s, i + 1, 121) {
        (TokenKind::TY, 2)
    } else if is_digit(b) {
        (TokenKind::Number(frac_ordinal(fraction_digits(s, i)) as u64), number_len(s, i))
    } else if is_space(b) {
        (TokenKind::Whitespace, 1)
    } else if b == 105 && byte_at(s, i + 1, 102) {
        (TokenKind::If, 2)
    } else if b == 116 && byte_at(s, i + 1, 104) && byte_at(s, i + 2, 101) && byte_at(
        s,
        i + 3,
        110,
    ) {
        (TokenKind::Then, 4)
    } else if b == 101 && byte_at(s, i + 1, 108) && byte_at(s, i + 2, 115) && byte_at(
        s,
        i + 3,
        101,
    ) {
        (TokenKind::Else, 4)
    } else if b == 101 && byte_at(s, i + 1, 110) && byte_at(s, i + 2, 100) {
        (TokenKind::End, 3)
    } else if b == 115 && byte_at(s, i + 1, 105) && byte_at(s, i + 2, 110) {
        (TokenKind::Sin, 3)
    } else if b == 99 && byte_at(s, i + 1, 111) && byte_at(s, i + 2, 115) {
        (TokenKind::Cos, 3)
    } else {
        (TokenKind::Other(b as char), 1)
    }
}

pub proof fn lemma_digit_run_bound(s: Seq<u8>, i: int)
    requires
        0 <= i <= s.len(),
    ensures
        i + digit_run(s, i) <= s.len(),
        i < s.len() && is_digit(s[i]) ==> digit_run(s, i) >= 1,
    decreases s.len() - i,
{
    if i < s.len() && is_digit(s[i]) {
        lemma_digit_run_bound(s, i + 1);
    }
}

/// Every token has at least one byte and ends within the source.
pub proof fn lemma_token_len(s: Seq<u8>, i: int)
    requires
        0 <= i < s.len(),
    ensures
        1 <= token_at(s, i).1,
        i + token_at(s, i).1 <= s.len(),
{
    lemma_digit_run_bound(s, i);
    let w = digit_run(s, i) as int;
    if has_fraction(s, i) {
        lemma_digit_run_bound(s, i + w + 1);
    }
}

/// The tokens of `s` from offset `i` on.
pub open spec fn tokens_from(s: Seq<u8>, i: int) -> Seq<Token>
    decreases s.len() - i,
{
    if 0 <= i < s.len() {
        let (k, n) = token_at(s, i);
        if 1 <= n && i + n <= s.len() {
            seq![Token { kind: k, span: Span { start: i as usize, end: (i + n) as usize } }]
                + tokens_from(s, i + n)
        } else {
            Seq::empty()
        }
    } else {
        Seq::empty()
    }
}

/// The lexer: the source bytes and a cursor into them.
pub struct Lexer {
    pub source: Vec<u8>,
    pub cursor: usize,
}

/// The ordinal of a run of fractional digits.
fn fraction_ordinal(s: &Vec<u8>, start: usize, end: usize) -> (r: u64)
    requires
        start <= end <= s@.len(),
        forall|j: int| start <= j < end ==> is_digit(#[trigger] s@[j]),
    ensures
        r == frac_ordinal(s@.subrange(start as int, end as int)),
{
    let mut q: u64 = 0;
    let mut j = end;
    while j > start
        invariant
            start <= j <= end <= s@.len(),
            forall|k: int| start <= k < end ==> is_digit(#[trigger] s@[k]),
            q as nat == frac_ordinal(s@.subrange(j as int, end as int)),
        decreases j,
    {
        j = j - 1;
        let d = (s[j] - 48u8) as u128;
        let next = (d * 0x1_0000_0000_0000_0000u128 + q as u128) / 10;
        proof {
            let ds = s@.subrange(j as int, end as int);
            assert(ds.drop_first() =~= s@.subrange(j + 1, end as int));
            assert(ds[0] == s@[j as int]);
        }
        q = next as u64;
    }
    q
}

impl Lexer {
    pub open spec fn wf(&self) -> bool {
        self.cursor <= self.source@.len()
    }

    /// A lexer at the start of `source`.
    pub fn new(source: Vec<u8>) -> (r: Lexer)
        ensures
            r.source@ == source@,
            r.cursor == 0,
            r.wf(),
    {
        Lexer { source, cursor: 0 }
    }

    /// The bytes being tokenized.
    pub fn source(&self) -> (r: Vec<u8>)
        ensures
            r@ == self.source@,
    {
        self.source.clone()
    }

    /// The byte at the cursor, as a character; `None` at the end.
    pub fn current(&self) -> (r: Option<char>)
        ensures
            r == (if self.cursor < self.source@.len() {
                Some(self.source@[self.cursor as int] as char)
            } else {
                None
            }),
    {
        if self.cursor < self.source.len() {
            Some(self.source[self.cursor] as char)
        } else {
            None
        }
    }

    /// The byte at `offset` from the cursor, as a character; `None` outside
    /// the source.
    pub fn peak(&self, offset: isize) -> (r: Option<char>)
        ensures
            ({
                let p = self.cursor + offset;
                r == (if 0 <= p < self.source@.len() {
                    Some(self.source@[p] as char)
                } else {
                    None
                })
            }),
    {
        let len = self.source.len();
        if offset >= 0 {
            let o = offset as usize;
            if self.cursor < len && o < len - self.cursor {
                Some(self.source[self.cursor + o] as char)
            } else {
                None
            }
        } else {
            let back = ((-(offset + 1)) as usize) + 1;
            if back <= self.cursor && self.cursor - back < len {
                Some(self.source[self.cursor - back] as char)
            } else {
                None
            }
        }
    }

    /// Moves the cursor one byte on.
    pub fn next(&mut self)
        requires
            old(self).cursor < old(self).source@.len(),
        ensures
            final(self).cursor == old(self).cursor + 1,
            final(self).source == old(self).source,
    {
        let len = self.source.len();
        assert(self.cursor < len);
        self.cursor = self.cursor + 1;
    }

    /// The span from `start` to the cursor.
    pub fn span(&self, start: usize) -> (r: Span)
        ensures
            r == (Span { start, end: self.cursor }),
    {
        Span { start, end: self.cursor }
    }

    /// Whether a decimal literal starts at the cursor.
    pub fn is_at_number(&self) -> (r: bool)
        ensures
            r == (self.cursor < self.source@.len() && is_digit(self.source@[self.cursor as int])),
    {
        self.cursor < self.source.len() && self.source[self.cursor] >= 48 && self.source[self.cursor]
            <= 57
    }

    /// The end of the digit run that starts at `i`.
    fn digit_run_end(&self, i: usize) -> (r: usize)
        requires
            i <= self.source@.len(),
        ensures
            r == i + digit_run(self.source@, i as int),
            r <= self.source@.len(),
            forall|j: int| i <= j < r ==> is_digit(#[trigger] self.source@[j]),
    {
        let mut j = i;
        while j < self.source.len() && self.source[j] >= 48 && self.source[j] <= 57
            invariant
                i <= j <= self.source@.len(),
                j - i + digit_run(self.source@, j as int) == digit_run(self.source@, i as int),
                forall|k: int| i <= k < j ==> is_digit(#[trigger] self.source@[k]),
            decreases self.source@.len() - j,
        {
            j = j + 1;
        }
        j
    }

    /// Whether the byte at `i` is `b`.
    fn byte_is(&self, i: usize, b: u8) -> (r: bool)
        ensures
            r == byte_at(self.source@, i as int, b),
    {
        i < self.source.len() && self.source[i] == b
    }

    /// The next token, moving the cursor past it; `None` at the end of the
    /// source.
    pub fn next_token(&mut self) -> (r: Option<Token>)
        requires
            old(self).wf(),
        ensures
            final(self).wf(),
            final(self).source == old(self).source,
            ({
                let s = old(self).source@;
                let c = old(self).cursor as int;
                if c < s.len() {
                    let (k, n) = token_at(s, c);
                    &&& r == Some(
                        Token { kind: k, span: Span { start: c as usize, end: (c + n) as usize } },
                    )
                    &&& final(self).cursor == c + n
                } else {
                    &&& r.is_none()
                    &&& final(self).cursor == c
                }
            }),
    {
        let start = self.cursor;
        if start >= self.source.len() {
            return None;
        }
        proof {
            lemma_token_len(self.source@, start as int);
        }
        let b = self.source[start];
        let (kind, len): (TokenKind, usize) = if b == 43 {
            (TokenKind::Plus, 1)
        } else if b == 45 {
            (TokenKind::Minus, 1)
        } else if b == 42 {
            (TokenKind::Asterisk, 1)
        } else if b == 47 {
            (TokenKind::Slash, 1)
        } else if b == 37 {
            (TokenKind::Procent, 1)
        } else if b == 94 {
            (TokenKind::Carrot, 1)
        } else if b == 40 {
            (TokenKind::Lparen, 1)
        } else if b == 41 {
            (TokenKind::Rparen, 1)
        } else if b == 123 {
            (TokenKind::Lbrace, 1)
        } else if b == 125 {
            (TokenKind::Rbrace, 1)
        } else if b == 44 {
            (TokenKind::Comma, 1)
        } else if b == 124 {
            (TokenKind::Bar, 1)
        } else if b == 38 {
            (TokenKind::And, 1)
        } else if b == 60 {
            (TokenKind::Less, 1)
        } else if b == 62 {
            (TokenKind::Greater, 1)
        } else if b == 61 {
            (TokenKind::Equal, 1)
        } else if b == 33 {
            (TokenKind::Exclamation, 1)
        } else if b == 120 {
            (TokenKind::X, 1)
        } else if b == 121 {
            (TokenKind::Y, 1)
        } else if b == 97 {
            (TokenKind::A, 1)
        } else if b == 114 {
            (TokenKind::R, 1)
        } else if b == 116 && self.byte_is(start + 1, 120) {
            (TokenKind::TX, 2)
        } else if b == 116 && self.byte_is(start + 1, 121) {
            (TokenKind::TY, 2)
        } else if self.is_at_number() {
            let w_end = self.digit_run_end(start);
            if self.byte_is(w_end, 46) && w_end + 1 < self.source.len() && self.source[w_end
                + 1] >= 48 && self.source[w_end + 1] <= 57 {
                let f_end = self.digit_run_end(w_end + 1);
                let ord = fraction_ordinal(&self.source, w_end + 1, f_end);
                (TokenKind::Number(ord), f_end - start)
            } else {
                (TokenKind::Number(0), w_end - start)
            }
        } else if is_space_byte(b) {
            (TokenKind::Whitespace, 1)
        } else if b == 105 && self.byte_is(start + 1, 102) {
            (TokenKind::If, 2)
        } else if b == 116 && self.byte_is(start + 1, 104) && self.byte_is(start + 2, 101)
            && self.byte_is(start + 3, 110) {
            (TokenKind::Then, 4)
        } else if b == 101 && self.byte_is(start + 1, 108) && self.byte_is(start + 2, 115)
            && self.byte_is(start + 3, 101) {
            (TokenKind::Else, 4)
        } else if b == 101 && self.byte_is(start + 1, 110) && self.byte_is(start + 2, 100) {
            (TokenKind::End, 3)
        } else if b == 115 && self.byte_is(start + 1, 105) && self.byte_is(start + 2, 110) {
            (TokenKind::Sin, 3)
        } else if b == 99 && self.byte_is(start + 1, 111) && self.byte_is(start + 2, 115) {
            (TokenKind::Cos, 3)
        } else {
            (TokenKind::Other(b as char), 1)
        };
        assert(token_at(self.source@, start as int) == (kind, len as int));
        self.cursor = start + len;
        Some(Token { kind, span: self.span(start) })
    }
}

fn is_space_byte(b: u8) -> (r: bool)
    ensures
        r == is_space(b),
{
    b == 9 || b == 10 || b == 11 || b == 12 || b == 13 || b == 32 || b == 0x85 || b == 0xA0
}

/// The tokens of `source`, in order.
pub fn tokenize(source: Vec<u8>) -> (r: Vec<Token>)
    ensures
        r@ == tokens_from(source@, 0),
{
    let mut lexer = Lexer::new(source);
    let mut out: Vec<Token> = Vec::new();
    loop
        invariant
            lexer.wf(),
            lexer.source@ == source@,
            out@ + tokens_from(source@, lexer.cursor as int) == tokens_from(source@, 0),
        decreases source@.len() - lexer.cursor,
    {
        let ghost c = lexer.cursor as int;
        proof {
            if c < source@.len() {
                lemma_token_len(source@, c);
            }
        }
        match lexer.next_token() {
            Some(t) => {
                proof {
                    assert(tokens_from(source@, c) == seq![t] + tokens_from(
                        source@,
                        lexer.cursor as int,
                    ));
                    assert(out@.push(t) + tokens_from(source@, lexer.cursor as int) =~= out@ + (
                    seq![t] + tokens_from(source@, lexer.cursor as int)));
                }
                out.push(t);
            },
            None => {
                assert(out@ =~= out@ + tokens_from(source@, c));
                return out;
            },
        }
    }
}

} // verus!
