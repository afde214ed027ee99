//! Labels on parsers: how a failure is renamed after the construct that was
//! expected, or marked as lying inside it.

use crate::error::Error;
use crate::input::{
    checkpoint_of, extends_from, is_alt_after, without_alt, Checkpoint, Errors, InputRef, Located,
    Parser, PositionOf,
};
use crate::span::{Position, Span};
use vstd::prelude::*;

verus! {

/// An error type whose failures a labelled parser can rewrite.
pub trait LabelError<L>: Error {
    /// The pattern that stands for a label among the expectations.
    spec fn label_pattern(label: L) -> Self::Pattern;

    /// The labelled constructs that the failure lies in, each with the span
    /// from the start of the construct to the failure, innermost first.
    spec fn contexts_spec(&self) -> Seq<(L, Self::Span)>;

    /// Makes `label` the one thing that was expected. Every earlier
    /// expectation is dropped; the rest of the failure stays.
    fn label_with(&mut self, label: L)
        ensures
            final(self).expected_spec() == seq![Self::label_pattern(label)],
            final(self).span_spec() == old(self).span_spec(),
            final(self).found_spec() == old(self).found_spec(),
            final(self).contexts_spec() == old(self).contexts_spec(),
    ;

    /// Records that the failure lies inside the construct named `label`, which
    /// began at the start of `span`. The expectations and the rest of the
    /// failure stay.
    fn in_context(&mut self, label: L, span: Self::Span)
        ensures
            final(self).contexts_spec() == old(self).contexts_spec().push((label, span)),
            final(self).expected_spec() == old(self).expected_spec(),
            final(self).span_spec() == old(self).span_spec(),
            final(self).found_spec() == old(self).found_spec(),
    ;
}

/// Whether `after` is `before` with `label` as its one expectation.
pub open spec fn is_relabelled<L, E: LabelError<L>>(after: E, before: E, label: L) -> bool {
    &&& after.expected_spec() == seq![E::label_pattern(label)]
    &&& after.span_spec() == before.span_spec()
    &&& after.found_spec() == before.found_spec()
    &&& after.contexts_spec() == before.contexts_spec()
}

/// Whether `after` is `before` with one more context: the construct `label`,
/// with the span that runs from `entry` to `at`.
pub open spec fn is_in_context<L, E: LabelError<L>>(
    after: E,
    before: E,
    label: L,
    entry: PositionOf<E>,
    at: PositionOf<E>,
) -> bool {
    &&& after.contexts_spec().len() == before.contexts_spec().len() + 1
    &&& after.contexts_spec().drop_last() == before.contexts_spec()
    &&& after.contexts_spec().last().0 == label
    &&& after.contexts_spec().last().1.start_spec() == entry
    &&& after.contexts_spec().last().1.end_spec() == at
    &&& after.expected_spec() == before.expected_spec()
    &&& after.span_spec() == before.span_spec()
    &&& after.found_spec() == before.found_spec()
}

/// Whether `after` is what a parser labelled `label`, entered at `entry`,
/// makes of the failure `before` of the parser inside it.
///
/// A failure at the entry itself is relabelled: the parser inside took no
/// input, so the label says all there is to say. A failure further on keeps
/// its expectations; where the label is a context, the failure gets it as one
/// more context. Any other failure stays as it is.
pub open spec fn is_labelled<L, E: LabelError<L>>(
    after: Located<PositionOf<E>, E>,
    before: Located<PositionOf<E>, E>,
    label: L,
    is_context: bool,
    entry: PositionOf<E>,
) -> bool {
    &&& after.pos == before.pos
    &&& if before.pos.rank() == entry.rank() {
        is_relabelled(after.err, before.err, label)
    } else if is_context && before.pos.rank() > entry.rank() {
        is_in_context(after.err, before.err, label, entry, before.pos)
    } else {
        after.err == before.err
    }
}

/// Whether the secondary failures `secondary` reach at least as far as the
/// count of `checkpoint`, and those recorded since lie at or behind its
/// cursor, so that a span runs from the cursor to each of them.
pub open spec fn follows<P: Position, E>(
    secondary: Seq<Located<P, E>>,
    checkpoint: Checkpoint<P>,
) -> bool {
    &&& checkpoint.err_count <= secondary.len()
    &&& forall|i: int|
        checkpoint.err_count <= i < secondary.len() ==> checkpoint.cursor.rank() <= (
        #[trigger] secondary[i]).pos.rank()
}

/// Whether the failures `after` are the failures `before` as a parser
/// labelled `label` leaves them.
///
/// `before` holds what the parser inside left: its own failure as the best
/// alternative, and behind the first `checkpoint.err_count` secondary
/// failures those that it recorded. `outer` is the best alternative that was
/// set aside for the run. The failure of the parser inside is labelled and
/// offered to `outer`; the secondary failures of the run get the label as a
/// context, where it is one; the earlier ones stay.
pub open spec fn is_labelling_of<L, E: LabelError<L>>(
    after: Errors<PositionOf<E>, E>,
    before: Errors<PositionOf<E>, E>,
    label: L,
    is_context: bool,
    checkpoint: Checkpoint<PositionOf<E>>,
    outer: Option<Located<PositionOf<E>, E>>,
) -> bool {
    &&& match before.alt {
        None => after.alt == outer,
        Some(inner) => exists|labelled: Located<PositionOf<E>, E>|
            {
                &&& #[trigger] is_labelled(labelled, inner, label, is_context, checkpoint.cursor)
                &&& is_alt_after(outer, labelled.pos, labelled.err, after.alt)
            },
    }
    &&& after.secondary@.len() == before.secondary@.len()
    &&& forall|i: int|
        0 <= i < checkpoint.err_count ==> after.secondary@[i] == before.secondary@[i]
    &&& !is_context ==> after.secondary@ == before.secondary@
    &&& is_context ==> forall|i: int|
        checkpoint.err_count <= i < before.secondary@.len() ==> {
            &&& (#[trigger] after.secondary@[i]).pos == before.secondary@[i].pos
            &&& is_in_context(
                after.secondary@[i].err,
                before.secondary@[i].err,
                label,
                checkpoint.cursor,
                before.secondary@[i].pos,
            )
        }
}

/// A parser with a label for its failures.
#[derive(Copy, Clone)]
pub struct Labelled<A, L> {
    pub(crate) parser: A,
    pub(crate) label: L,
    pub(crate) is_context: bool,
}

impl<A, L> Labelled<A, L> {
    /// The parser that the label is put on.
    pub closed spec fn parser_spec(&self) -> A {
        self.parser
    }

    /// The label.
    pub closed spec fn label_spec(&self) -> L {
        self.label
    }

    /// Whether the label also marks the failures that lie inside the parser.
    pub closed spec fn is_context_spec(&self) -> bool {
        self.is_context
    }

    /// Puts `label` on `parser`. The label is no context yet.
    pub fn new(parser: A, label: L) -> (labelled: Self)
        ensures
            labelled.parser_spec() == parser,
            labelled.label_spec() == label,
            !labelled.is_context_spec(),
    {
        Labelled { parser, label, is_context: false }
    }

    /// The same labelled parser, with its label used as a context too: a
    /// failure that lies further into the input than the parser's start is
    /// marked as lying inside the labelled construct.
    pub fn as_context(self) -> (labelled: Self)
        ensures
            labelled.is_context_spec(),
            labelled.parser_spec() == self.parser_spec(),
            labelled.label_spec() == self.label_spec(),
    {
        Labelled { is_context: true, ..self }
    }
}

impl<A, L: Copy> Labelled<A, L> {
    /// What the label makes of the best failure `alt` that the parser inside
    /// left, when that parser was entered at `entry`.
    pub fn label_alt<E: LabelError<L>>(
        &self,
        entry: PositionOf<E>,
        alt: Located<PositionOf<E>, E>,
    ) -> (labelled: Located<PositionOf<E>, E>)
        ensures
            is_labelled(labelled, alt, self.label_spec(), self.is_context_spec(), entry),
    {
        let mut alt = alt;
        let at_entry = alt.pos.at_most(&entry);
        let not_before = entry.at_most(&alt.pos);
        if at_entry && not_before {
            alt.err.label_with(self.label);
        } else if self.is_context && not_before {
            let span = E::Span::between(entry, alt.pos);
            let ghost contexts = alt.err.contexts_spec();
            alt.err.in_context(self.label, span);
            assert(contexts.push((self.label, span)).drop_last() =~= contexts);
        }
        alt
    }

    /// Marks the secondary failures that were recorded since `before` as
    /// lying inside the labelled construct, where the label is a context.
    /// The failures recorded earlier, and the best alternative, stay.
    pub fn label_secondary<E: LabelError<L>>(
        &self,
        errors: &mut Errors<PositionOf<E>, E>,
        before: Checkpoint<PositionOf<E>>,
    )
        requires
            self.is_context_spec() ==> follows(old(errors).secondary@, before),
        ensures
            final(errors).alt == old(errors).alt,
            final(errors).secondary@.len() == old(errors).secondary@.len(),
            forall|i: int|
                0 <= i < before.err_count ==> final(errors).secondary@[i] == old(
                    errors,
                ).secondary@[i],
            !self.is_context_spec() ==> final(errors).secondary@ == old(errors).secondary@,
            self.is_context_spec() ==> forall|i: int|
                before.err_count <= i < old(errors).secondary@.len() ==> {
                    &&& (#[trigger] final(errors).secondary@[i]).pos == old(errors).secondary@[i].pos
                    &&& is_in_context(
                        final(errors).secondary@[i].err,
                        old(errors).secondary@[i].err,
                        self.label_spec(),
                        before.cursor,
                        old(errors).secondary@[i].pos,
                    )
                },
    {
        if self.is_context {
            let n = errors.secondary.len();
            let mut i: usize = before.err_count;
            while i < n
                invariant
                    before.err_count <= i <= n,
                    n == old(errors).secondary@.len(),
                    errors.secondary@.len() == n,
                    errors.alt == old(errors).alt,
                    forall|j: int|
                        0 <= j < before.err_count ==> errors.secondary@[j] == old(
                            errors,
                        ).secondary@[j],
                    forall|j: int|
                        i <= j < n ==> errors.secondary@[j] == old(errors).secondary@[j],
                    follows(old(errors).secondary@, before),
                    forall|j: int|
                        before.err_count <= j < i ==> {
                            &&& (#[trigger] errors.secondary@[j]).pos == old(
                                errors,
                            ).secondary@[j].pos
                            &&& is_in_context(
                                errors.secondary@[j].err,
                                old(errors).secondary@[j].err,
                                self.label,
                                before.cursor,
                                old(errors).secondary@[j].pos,
                            )
                        },
                decreases n - i,
            {
                let at = errors.secondary[i].pos;
                let span = E::Span::between(before.cursor, at);
                let ghost contexts = errors.secondary@[i as int].err.contexts_spec();
                errors.secondary[i].err.in_context(self.label, span);
                assert(contexts.push((self.label, span)).drop_last() =~= contexts);
                i += 1;
            }
        }
    }

    /// Rewrites the failures that the parser inside left in `errors`.
    ///
    /// `before` is the state of the parse when the parser inside was entered
    /// and `outer` the best alternative that was set aside then, so that the
    /// best alternative in `errors` is the failure of the parser inside alone.
    /// That failure is labelled and offered to `outer`, which becomes the
    /// best alternative again; then the secondary failures recorded since
    /// `before` are marked, where the label is a context.
    pub fn label_failures<E: LabelError<L>>(
        &self,
        errors: &mut Errors<PositionOf<E>, E>,
        before: Checkpoint<PositionOf<E>>,
        outer: Option<Located<PositionOf<E>, E>>,
    )
        requires
            self.is_context_spec() ==> follows(old(errors).secondary@, before),
        ensures
            is_labelling_of(
                *final(errors),
                *old(errors),
                self.label_spec(),
                self.is_context_spec(),
                before,
                outer,
            ),
    {
        let new_alt = errors.alt.take();
        errors.alt = outer;

        if let Some(new_alt) = new_alt {
            let labelled = self.label_alt(before.cursor, new_alt);
            errors.add_alt_err(labelled.pos, labelled.err);
        }
        self.label_secondary(errors, before);
    }
}

/// Whether the last context of `err` is the construct `label`, with the span
/// that runs from `entry` to `at`.
pub open spec fn ends_in_context<L, E: LabelError<L>>(
    err: E,
    label: L,
    entry: PositionOf<E>,
    at: PositionOf<E>,
) -> bool {
    &&& err.contexts_spec().len() > 0
    &&& err.contexts_spec().last().0 == label
    &&& err.contexts_spec().last().1.start_spec() == entry
    &&& err.contexts_spec().last().1.end_spec() == at
}

/// Whether the failure `failure` shows the hand of a parser labelled `label`
/// that was entered at `entry`: at the entry the label is its one
/// expectation, and further on the label is its last context, where the label
/// is a context.
pub open spec fn bears_label<L, E: LabelError<L>>(
    failure: Located<PositionOf<E>, E>,
    label: L,
    is_context: bool,
    entry: PositionOf<E>,
) -> bool {
    &&& failure.pos.rank() == entry.rank() ==> failure.err.expected_spec()
        == seq![E::label_pattern(label)]
    &&& is_context && failure.pos.rank() > entry.rank() ==> ends_in_context(
        failure.err,
        label,
        entry,
        failure.pos,
    )
}

/// What holds of the best alternative `after` a labelled parser has run,
/// given the best alternative `before` the run, whatever the parser inside
/// did.
///
/// An alternative that was there is never lost: the new one lies at least as
/// far into the input. Where it lies further, or where none was there, it is
/// a failure of the parser inside and bears the label. Where it lies at the
/// same position, it is the old one, or the old one with the failure of the
/// parser inside merged into it; at the entry the merged part is the label.
pub open spec fn alt_is_settled<L, E: LabelError<L>>(
    after: Option<Located<PositionOf<E>, E>>,
    before: Option<Located<PositionOf<E>, E>>,
    label: L,
    is_context: bool,
    entry: PositionOf<E>,
) -> bool {
    match (before, after) {
        (None, None) => true,
        (None, Some(new)) => bears_label(new, label, is_context, entry),
        (Some(_), None) => false,
        (Some(best), Some(new)) => {
            &&& best.pos.rank() <= new.pos.rank()
            &&& best.pos.rank() < new.pos.rank() ==> bears_label(new, label, is_context, entry)
            &&& best.pos.rank() == new.pos.rank() ==> new == best || {
                &&& new.pos == best.pos
                &&& new.err.span_spec() == best.err.span_spec()
                &&& new.err.found_spec() == best.err.found_spec()
                &&& best.err.expected_spec().is_prefix_of(new.err.expected_spec())
                &&& new.pos.rank() == entry.rank() ==> new.err.expected_spec()
                    == best.err.expected_spec().push(E::label_pattern(label))
            }
        },
    }
}

/// Whatever failure `inner` the parser inside left, once it is labelled and
/// offered to the alternative `before`, the outcome `after` is settled.
pub proof fn lemma_alt_is_settled<L, E: LabelError<L>>(
    after: Option<Located<PositionOf<E>, E>>,
    before: Option<Located<PositionOf<E>, E>>,
    inner: Option<Located<PositionOf<E>, E>>,
    label: L,
    is_context: bool,
    entry: PositionOf<E>,
)
    requires
        match inner {
            None => after == before,
            Some(failure) => exists|labelled: Located<PositionOf<E>, E>|
                {
                    &&& #[trigger] is_labelled(labelled, failure, label, is_context, entry)
                    &&& is_alt_after(before, labelled.pos, labelled.err, after)
                },
        },
    ensures
        alt_is_settled(after, before, label, is_context, entry),
{
    if let Some(failure) = inner {
        let labelled = choose|labelled: Located<PositionOf<E>, E>|
            {
                &&& #[trigger] is_labelled(labelled, failure, label, is_context, entry)
                &&& is_alt_after(before, labelled.pos, labelled.err, after)
            };
        if before.is_some() && before.unwrap().pos.rank() == labelled.pos.rank() {
            let first = before.unwrap().err.expected_spec();
            let second = labelled.err.expected_spec();
            <PositionOf<E> as Position>::rank_is_injective(
                before.unwrap().pos,
                labelled.pos,
            );
            assert((first + second).subrange(0, first.len() as int) =~= first);
            assert(first + seq![E::label_pattern(label)] =~= first.push(E::label_pattern(label)));
        }
    }
}

impl<E, A, L> Parser<E> for Labelled<A, L> where E: LabelError<L>, A: Parser<E>, L: Copy {
    type Output = A::Output;

    open spec fn runs(
        &self,
        before: InputRef<PositionOf<E>, E>,
        after: InputRef<PositionOf<E>, E>,
        res: Option<A::Output>,
    ) -> bool {
        exists|mid: InputRef<PositionOf<E>, E>|
            {
                &&& #[trigger] self.parser_spec().runs(without_alt(before), mid, res)
                &&& extends_from(mid.errors.secondary@, before.errors.secondary@, before.cursor)
                &&& after.cursor == mid.cursor
                &&& is_labelling_of(
                    after.errors,
                    mid.errors,
                    self.label_spec(),
                    self.is_context_spec(),
                    checkpoint_of(before),
                    before.errors.alt,
                )
            }
    }

    /// Runs the parser inside, then rewrites the failures that it left.
    ///
    /// The best alternative of before the run is set aside during the run, so
    /// that the failure of the parser inside can be told from it, and the two
    /// are put together afterwards. The secondary failures of before the run
    /// stay untouched; where the label is a context, each one recorded during
    /// the run gets it as its last context. Whether the parser inside
    /// succeeds, and what it gives, is not changed.
    fn go(&self, inp: &mut InputRef<PositionOf<E>, E>) -> (res: Option<A::Output>)
        ensures
            alt_is_settled(
                final(inp).errors.alt,
                old(inp).errors.alt,
                self.label_spec(),
                self.is_context_spec(),
                old(inp).cursor,
            ),
            self.is_context_spec() ==> forall|i: int|
                old(inp).errors.secondary@.len() <= i < final(inp).errors.secondary@.len()
                    ==> ends_in_context(
                    (#[trigger] final(inp).errors.secondary@[i]).err,
                    self.label_spec(),
                    old(inp).cursor,
                    final(inp).errors.secondary@[i].pos,
                ),
    {
        let old_alt = inp.errors.alt.take();
        let before = inp.save();
        let res = self.parser.go(inp);

        let ghost mid = *inp;
        let ghost inner = inp.errors.alt;
        self.label_failures(&mut inp.errors, before, old_alt);
        proof {
            lemma_alt_is_settled(
                inp.errors.alt,
                old(inp).errors.alt,
                inner,
                self.label,
                self.is_context,
                before.cursor,
            );
            assert(before == checkpoint_of(*old(inp)));
            assert(self.parser_spec().runs(without_alt(*old(inp)), mid, res));
        }
        res
    }
}

} // verus!
