//! The text form of tokens, positions and spans.

use crate::span::{Interval, Position};
use vstd::prelude::*;
use vstd::string::*;

verus! {

/// A value with a text form for messages.
pub trait Render {
    /// The characters of the text form.
    spec fn text(&self) -> Seq<char>;

    /// Writes the text form at the end of `out`.
    fn render_into(&self, out: &mut String)
        ensures
            final(out)@ == old(out)@ + self.text(),
    ;
}

/// `String::push` of std: the character is added at the end of the string and
/// nothing else changes.
pub assume_specification[ String::push ](s: &mut String, c: char)
    ensures
        final(s)@ == old(s)@.push(c),
;

/// The text form of a value, as a string of its own.
pub fn render<T: Render>(value: &T) -> (s: String)
    ensures
        s@ == value.text(),
{
    let mut s = String::new();
    value.render_into(&mut s);
    assert(Seq::<char>::empty() + value.text() =~= value.text());
    s
}

/// The character of a decimal digit.
pub open spec fn digit_char(d: nat) -> char
    recommends
        d < 10,
{
    ((48 + d) as u8) as char
}

/// The decimal numeral of `n`: no sign, and no leading zero but in `0` itself.
pub open spec fn decimal(n: nat) -> Seq<char>
    decreases n,
{
    if n < 10 {
        seq![digit_char(n)]
    } else {
        decimal(n / 10).push(digit_char(n % 10))
    }
}

/// Writes the decimal numeral of `n` at the end of `out`.
pub fn push_decimal(out: &mut String, n: usize)
    ensures
        final(out)@ == old(out)@ + decimal(n as nat),
    decreases n,
{
    if n >= 10 {
        push_decimal(out, n / 10);
    }
    let d: u8 = (n % 10) as u8;
    out.push((48u8 + d) as char);
    proof {
        let last = digit_char((n % 10) as nat);
        if n >= 10 {
            assert((old(out)@ + decimal((n / 10) as nat)).push(last) =~= old(out)@ + decimal(
                (n / 10) as nat,
            ).push(last));
        } else {
            assert(old(out)@.push(last) =~= old(out)@ + seq![last]);
        }
    }
}

impl Render for char {
    /// A character stands for itself.
    open spec fn text(&self) -> Seq<char> {
        seq![*self]
    }

    fn render_into(&self, out: &mut String) {
        out.push(*self);
        assert(old(out)@.push(*self) =~= old(out)@ + seq![*self]);
    }
}

impl Render for usize {
    /// An offset is written as its decimal numeral.
    open spec fn text(&self) -> Seq<char> {
        decimal(*self as nat)
    }

    fn render_into(&self, out: &mut String) {
        push_decimal(out, *self);
    }
}

impl<P: Position + Render> Render for Interval<P> {
    /// The two bounds with two dots between them.
    open spec fn text(&self) -> Seq<char> {
        self.start.text() + seq!['.', '.'] + self.end.text()
    }

    fn render_into(&self, out: &mut String) {
        self.start.render_into(out);
        out.push('.');
        out.push('.');
        self.end.render_into(out);
        assert(((old(out)@ + self.start.text()).push('.').push('.')) + self.end.text() =~= old(
            out,
        )@ + (self.start.text() + seq!['.', '.'] + self.end.text()));
    }
}

} // verus!
