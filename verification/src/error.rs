//! The capability trait of parser errors and a ready-made error type.

use crate::label::LabelError;
use crate::render::Render;
use crate::span::{Interval, Span};
use vstd::prelude::*;
use vstd::string::*;

verus! {

/// What a parser failure type offers to the engine.
///
/// A failure holds where it happened, what was expected there, in the order
/// in which the expectations were recorded, and the token that was found
/// instead, if any. The three model functions below are what the contracts of
/// this crate say about an error; an implementation may hold more.
pub trait Error: Sized {
    /// The tokens of the input.
    type Token;

    /// The spans that locate a failure.
    type Span: Span;

    /// What describes an expected token or group of tokens in a message.
    type Pattern;

    /// The place of the failure.
    spec fn span_spec(&self) -> Self::Span;

    /// The expected patterns, oldest first; a pattern may occur twice.
    spec fn expected_spec(&self) -> Seq<Self::Pattern>;

    /// The token that was found; `None` where the input ended.
    spec fn found_spec(&self) -> Option<Self::Token>;

    /// The pattern that stands for one expected token.
    spec fn token_pattern(token: Self::Token) -> Self::Pattern;

    /// The place of the failure.
    fn span(&self) -> (s: Self::Span)
        ensures
            s == self.span_spec(),
    ;

    /// A failure at `span` where one of the tokens `expected` was wanted and
    /// `found` came instead. With no expected token, nothing at all was
    /// acceptable there.
    fn expected_token_found(
        span: Self::Span,
        expected: Vec<Self::Token>,
        found: Option<Self::Token>,
    ) -> (e: Self)
        ensures
            e.span_spec() == span,
            e.found_spec() == found,
            e.expected_spec() == expected@.map_values(|t: Self::Token| Self::token_pattern(t)),
    ;

    /// A failure at `span` where the pattern `expected` was wanted and `found`
    /// came instead.
    fn expected_label_found<L: Into<Self::Pattern>>(
        span: Self::Span,
        expected: L,
        found: Option<Self::Token>,
    ) -> (e: Self)
        ensures
            e.span_spec() == span,
            e.found_spec() == found,
            e.expected_spec().len() == 1,
            call_ensures(<L as Into<Self::Pattern>>::into, (expected,), e.expected_spec()[0]),
    {
        Self::expected_token_found(span, Vec::new(), found).into_labelled(expected)
    }

    /// The same failure with `label` as the one thing that was expected.
    /// Every earlier expectation is dropped.
    fn into_labelled<L: Into<Self::Pattern>>(self, label: L) -> (e: Self)
        ensures
            e.span_spec() == self.span_spec(),
            e.found_spec() == self.found_spec(),
            e.expected_spec().len() == 1,
            call_ensures(<L as Into<Self::Pattern>>::into, (label,), e.expected_spec()[0]),
    ;

    /// The failure `self` with the expectations of `other` behind its own.
    /// The two are taken to describe the same place; this is not tested.
    fn merge(self, other: Self) -> (e: Self)
        ensures
            e.span_spec() == self.span_spec(),
            e.found_spec() == self.found_spec(),
            e.expected_spec() == self.expected_spec() + other.expected_spec(),
    ;
}

/// Whether `merged` is what `merge` makes of `first` and `second`: the
/// place and the found token of `first`, and the expectations of both, those
/// of `first` in front.
pub open spec fn is_merge_of<E: Error>(merged: E, first: E, second: E) -> bool {
    &&& merged.span_spec() == first.span_spec()
    &&& merged.found_spec() == first.found_spec()
    &&& merged.expected_spec() == first.expected_spec() + second.expected_spec()
}

/// Merging is associative in what it keeps: whether a third failure is merged
/// into the merge of two, or the merge of the last two into the first, the
/// place and the found token are those of the first, and the expectations
/// follow each other in the same order.
pub proof fn lemma_merge_is_associative<E: Error>(
    a: E,
    b: E,
    c: E,
    ab: E,
    bc: E,
    left: E,
    right: E,
)
    requires
        is_merge_of(ab, a, b),
        is_merge_of(bc, b, c),
        is_merge_of(left, ab, c),
        is_merge_of(right, a, bc),
    ensures
        left.span_spec() == right.span_spec(),
        left.found_spec() == right.found_spec(),
        left.expected_spec() == right.expected_spec(),
        left.expected_spec() == a.expected_spec() + b.expected_spec() + c.expected_spec(),
{
    assert((a.expected_spec() + b.expected_spec()) + c.expected_spec() =~= a.expected_spec() + (
    b.expected_spec() + c.expected_spec()));
}

/// A pattern that names either a syntactic category or one token.
#[derive(Clone, Debug, PartialEq, Eq)]
pub enum SimplePattern<I> {
    /// A pattern with the given name was expected.
    Labelled(&'static str),
    /// A specific token was expected.
    Token(I),
}

impl<I> From<&'static str> for SimplePattern<I> {
    /// A string names a category.
    fn from(s: &'static str) -> (p: Self) {
        SimplePattern::Labelled(s)
    }
}

impl<I> vstd::std_specs::convert::FromSpecImpl<&'static str> for SimplePattern<I> {
    open spec fn obeys_from_spec() -> bool {
        true
    }

    open spec fn from_spec(s: &'static str) -> Self {
        SimplePattern::Labelled(s)
    }
}

/// Making a pattern from a string gives the same pattern each time: the
/// category of that name.
pub proof fn lemma_from_str_is_stable<I>(
    name: &'static str,
    first: SimplePattern<I>,
    second: SimplePattern<I>,
)
    requires
        call_ensures(<SimplePattern<I> as From<&'static str>>::from, (name,), first),
        call_ensures(<SimplePattern<I> as From<&'static str>>::from, (name,), second),
    ensures
        first == second,
        first == SimplePattern::<I>::Labelled(name),
{
}

impl<I: Render> Render for SimplePattern<I> {
    /// A category is written as its name, a token between single quotes.
    open spec fn text(&self) -> Seq<char> {
        match self {
            SimplePattern::Labelled(s) => s@,
            SimplePattern::Token(t) => seq!['\''] + t.text() + seq!['\''],
        }
    }

    fn render_into(&self, out: &mut String) {
        match self {
            SimplePattern::Labelled(s) => {
                out.append(s);
            },
            SimplePattern::Token(t) => {
                out.push('\'');
                t.render_into(out);
                out.push('\'');
                assert((old(out)@.push('\'') + t.text()).push('\'') =~= old(out)@ + (seq!['\'']
                    + t.text() + seq!['\'']));
            },
        }
    }
}

/// A plain error type: a span, the expected patterns and the found token.
#[derive(Clone, Debug, PartialEq, Eq)]
pub struct Simple<I, S = Interval<usize>> {
    span: S,
    expected: Vec<SimplePattern<I>>,
    found: Option<I>,
    contexts: Vec<(&'static str, S)>,
}

/// What a `Simple` holds, as plain values.
#[verifier::ext_equal]
pub struct SimpleView<I, S> {
    /// The place of the failure.
    pub span: S,
    /// The expected patterns, oldest first.
    pub expected: Seq<SimplePattern<I>>,
    /// The token that was found; `None` where the input ended.
    pub found: Option<I>,
    /// The labelled constructs that the failure lies in, each with the span
    /// from its start to the failure, innermost first.
    pub contexts: Seq<(&'static str, S)>,
}

impl<I, S> View for Simple<I, S> {
    type V = SimpleView<I, S>;

    closed spec fn view(&self) -> SimpleView<I, S> {
        SimpleView {
            span: self.span,
            expected: self.expected@,
            found: self.found,
            contexts: self.contexts@,
        }
    }
}

impl<I, S> Simple<I, S> {
    /// The patterns that were expected, oldest first.
    pub fn expected(&self) -> (patterns: &[SimplePattern<I>])
        ensures
            patterns@ == self@.expected,
    {
        self.expected.as_slice()
    }

    /// The token that was found in place of an expected pattern; `None`
    /// where the input ended.
    pub fn found(&self) -> (token: Option<&I>)
        ensures
            token.is_some() == self@.found.is_some(),
            token matches Some(t) ==> *t == self@.found.unwrap(),
    {
        self.found.as_ref()
    }

    /// The labelled constructs that the failure lies in, each with the span
    /// from the start of the construct to the failure, innermost first.
    pub fn contexts(&self) -> (contexts: &[(&'static str, S)])
        ensures
            contexts@ == self@.contexts,
    {
        self.contexts.as_slice()
    }
}

impl<I, S: Span> Error for Simple<I, S> {
    type Token = I;

    type Span = S;

    type Pattern = SimplePattern<I>;

    open spec fn span_spec(&self) -> S {
        self@.span
    }

    open spec fn expected_spec(&self) -> Seq<SimplePattern<I>> {
        self@.expected
    }

    open spec fn found_spec(&self) -> Option<I> {
        self@.found
    }

    open spec fn token_pattern(token: I) -> SimplePattern<I> {
        SimplePattern::Token(token)
    }

    fn span(&self) -> (s: S) {
        self.span
    }

    fn expected_token_found(span: S, expected: Vec<I>, found: Option<I>) -> (e: Self)
        ensures
            e@.contexts == Seq::<(&'static str, S)>::empty(),
    {
        let ghost tokens = expected@;
        let mut patterns: Vec<SimplePattern<I>> = Vec::new();
        for token in it: expected.into_iter()
            invariant
                it.seq() == tokens,
                patterns@ =~= tokens.take(it.index()).map_values(
                    |t: I| Self::token_pattern(t),
                ),
        {
            patterns.push(SimplePattern::Token(token));
            assert(tokens.take(it.index() + 1) =~= tokens.take(it.index()).push(token));
        }
        assert(tokens.take(tokens.len() as int) =~= tokens);
        Simple { span, expected: patterns, found, contexts: Vec::new() }
    }

    /// On this type the failure is new: it lies in no context yet.
    fn expected_label_found<L: Into<SimplePattern<I>>>(span: S, expected: L, found: Option<I>) -> (e:
        Self)
        ensures
            e@.contexts == Seq::<(&'static str, S)>::empty(),
    {
        Self::expected_token_found(span, Vec::new(), found).into_labelled(expected)
    }

    fn into_labelled<L: Into<SimplePattern<I>>>(self, label: L) -> (e: Self)
        ensures
            e@.contexts == self@.contexts,
    {
        let mut e = self;
        e.expected = vec![label.into()];
        e
    }

    fn merge(self, other: Self) -> (e: Self)
        ensures
            e@.contexts == self@.contexts,
    {
        let mut e = self;
        let mut other = other;
        e.expected.append(&mut other.expected);
        e
    }
}

impl<I, S: Span> LabelError<&'static str> for Simple<I, S> {
    /// A label names a category.
    open spec fn label_pattern(label: &'static str) -> SimplePattern<I> {
        SimplePattern::Labelled(label)
    }

    open spec fn contexts_spec(&self) -> Seq<(&'static str, S)> {
        self@.contexts
    }

    fn label_with(&mut self, label: &'static str) {
        self.expected = vec![SimplePattern::Labelled(label)];
    }

    fn in_context(&mut self, label: &'static str, span: S) {
        self.contexts.push((label, span));
    }
}

/// The texts `parts` with `separator` between each two neighbours.
pub open spec fn joined(parts: Seq<Seq<char>>, separator: Seq<char>) -> Seq<char>
    decreases parts.len(),
{
    if parts.len() == 0 {
        Seq::empty()
    } else if parts.len() == 1 {
        parts[0]
    } else {
        joined(parts.drop_last(), separator) + separator + parts.last()
    }
}

/// The first half of a message: what was found, and where.
pub open spec fn found_text<I: Render, S: Render>(span: S, found: Option<I>) -> Seq<char> {
    match found {
        Some(token) => "found '"@ + token.text() + "' at "@ + span.text() + " "@,
        None => "the input ended "@,
    }
}

/// The second half of a message: what was expected instead.
pub open spec fn expected_text<I: Render>(expected: Seq<SimplePattern<I>>) -> Seq<char> {
    if expected.len() == 0 {
        "but end of input was expected"@
    } else if expected.len() == 1 {
        "but "@ + expected[0].text() + " was expected"@
    } else {
        "but one of "@ + joined(expected.map_values(|p: SimplePattern<I>| p.text()), ", "@)
            + " was expected"@
    }
}

impl<I: Render, S: Render> Render for Simple<I, S> {
    /// The message of the failure: what was found and where, then what was
    /// expected. The contexts are not part of it.
    open spec fn text(&self) -> Seq<char> {
        found_text(self@.span, self@.found) + expected_text(self@.expected)
    }

    fn render_into(&self, out: &mut String) {
        match &self.found {
            Some(token) => {
                out.append("found '");
                token.render_into(out);
                out.append("' at ");
                self.span.render_into(out);
                out.append(" ");
            },
            None => {
                out.append("the input ended ");
            },
        }
        let ghost head = old(out)@ + found_text(self.span, self.found);
        assert(out@ =~= head);
        let n = self.expected.len();
        if n == 0 {
            out.append("but end of input was expected");
        } else if n == 1 {
            out.append("but ");
            self.expected[0].render_into(out);
            out.append(" was expected");
        } else {
            out.append("but one of ");
            let ghost texts = self.expected@.map_values(|p: SimplePattern<I>| p.text());
            self.expected[0].render_into(out);
            assert(joined(texts.take(1), ", "@) == texts[0]);
            let mut i: usize = 1;
            while i < n
                invariant
                    1 <= i <= n,
                    n == self.expected.len(),
                    texts == self.expected@.map_values(|p: SimplePattern<I>| p.text()),
                    out@ =~= head + "but one of "@ + joined(texts.take(i as int), ", "@),
                decreases n - i,
            {
                out.append(", ");
                self.expected[i].render_into(out);
                proof {
                    let next = texts.take(i + 1);
                    assert(next.drop_last() =~= texts.take(i as int));
                    assert(next.last() == texts[i as int]);
                }
                i += 1;
            }
            assert(texts.take(n as int) =~= texts);
            out.append(" was expected");
        }
        assert(out@ =~= old(out)@ + (found_text(self.span, self.found) + expected_text(
            self.expected@,
        )));
    }
}

} // verus!
