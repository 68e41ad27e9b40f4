//! Byte ranges into the source buffer.
use vstd::prelude::*;

verus! {

/// A half-open byte range `[start, end)` of the source.
#[derive(Debug, Clone, Copy, PartialEq, Eq, Structural)]
pub struct Span {
    pub start: usize,
    pub end: usize,
}

/// The character that stands for a byte in a rendered span: ASCII bytes as
/// themselves, every other byte as the replacement character.
pub open spec fn display_char(b: u8) -> char {
    if b < 128 {
        b as char
    } else {
        '\u{FFFD}'
    }
}

/// Relies on `String::push`: appends one character at the end.
#[verifier::external_body]
fn push_char(s: &mut String, c: char)
    ensures
        final(s)@ == old(s)@.push(c),
{
    s.push(c)
}

impl Span {
    /// A span from a start and an end offset.
    pub fn new(start: usize, end: usize) -> (r: Span)
        ensures
            r.start == start,
            r.end == end,
    {
        Span { start, end }
    }

    /// The span that runs from the start of `start` to the end of `end`.
    pub fn from_spans(start: &Span, end: &Span) -> (r: Span)
        ensures
            r.start == start.start,
            r.end == end.end,
    {
        Span::new(start.start, end.end)
    }

    /// The text that the span covers, one character per byte.
    pub fn get_string(&self, source: &[u8]) -> (r: String)
        requires
            self.start <= self.end <= source@.len(),
        ensures
            r@ == source@.subrange(self.start as int, self.end as int).map_values(
                |b: u8| display_char(b),
            ),
    {
        let mut out = String::new();
        let mut i = self.start;
        while i < self.end
            invariant
                self.start <= i <= self.end <= source@.len(),
                out@ == source@.subrange(self.start as int, i as int).map_values(
                    |b: u8| display_char(b),
                ),
            decreases self.end - i,
        {
            let b = source[i];
            let c = if b < 128 {
                b as char
            } else {
                '\u{FFFD}'
            };
            push_char(&mut out, c);
            proof {
                assert(source@.subrange(self.start as int, i + 1).map_values(|b: u8| display_char(b))
                    =~= source@.subrange(self.start as int, i as int).map_values(
                    |b: u8| display_char(b),
                ).push(c));
            }
            i = i + 1;
        }
        out
    }
}

} // verus!
