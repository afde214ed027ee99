//! What a combinator sees of a running parse: the cursor, the failures that
//! were collected so far, and the parsers it runs.

use crate::error::{is_merge_of, Error};
use crate::span::{Position, Span};
use vstd::prelude::*;

verus! {

/// The positions of the spans of the error type `E`.
pub type PositionOf<E> = <<E as Error>::Span as Span>::Position;

/// A failure and the position at which it occurred.
#[derive(Clone, Debug, PartialEq, Eq)]
pub struct Located<P, E> {
    /// Where the failure occurred.
    pub pos: P,
    /// The failure.
    pub err: E,
}

/// The failures collected during one parse.
///
/// `alt` is the best failure among the alternatives tried so far. `secondary`
/// holds the other failures, in the order in which they were recorded.
pub struct Errors<P, E> {
    /// The best failure among the alternatives, if one failed.
    pub alt: Option<Located<P, E>>,
    /// The other failures, oldest first.
    pub secondary: Vec<Located<P, E>>,
}

/// The state of a parse at one moment, to compare a later state with.
#[derive(Clone, Copy, Debug, PartialEq, Eq)]
pub struct Checkpoint<P> {
    /// Where the cursor stood.
    pub cursor: P,
    /// How many secondary failures had been recorded.
    pub err_count: usize,
}

/// A running parse.
pub struct InputRef<P, E> {
    /// How far the parse has come.
    pub cursor: P,
    /// The failures collected on the way.
    pub errors: Errors<P, E>,
}

/// Whether `after` is the best alternative once the failure `err` at `at` has
/// been offered to the best alternative `before`.
///
/// The failure that lies further into the input wins. Of two at the same
/// position the earlier one is kept and the later one merged into it.
pub open spec fn is_alt_after<P: Position, E: Error>(
    before: Option<Located<P, E>>,
    at: P,
    err: E,
    after: Option<Located<P, E>>,
) -> bool {
    match before {
        None => after == Some(Located { pos: at, err }),
        Some(best) => if best.pos.rank() > at.rank() {
            after == before
        } else if best.pos.rank() < at.rank() {
            after == Some(Located { pos: at, err })
        } else {
            &&& after.is_some()
            &&& after.unwrap().pos == best.pos
            &&& is_merge_of(after.unwrap().err, best.err, err)
        },
    }
}

impl<P: Position, E: Error> Errors<P, E> {
    /// No failure at all.
    pub fn new() -> (errors: Self)
        ensures
            errors.alt.is_none(),
            errors.secondary@.len() == 0,
    {
        Errors { alt: None, secondary: Vec::new() }
    }

    /// Offers the failure `err` at `at` as the best alternative.
    pub fn add_alt_err(&mut self, at: P, err: E)
        ensures
            is_alt_after(old(self).alt, at, err, final(self).alt),
            final(self).secondary == old(self).secondary,
    {
        let next = match self.alt.take() {
            None => Located { pos: at, err },
            Some(best) => {
                if !best.pos.at_most(&at) {
                    best
                } else if !at.at_most(&best.pos) {
                    Located { pos: at, err }
                } else {
                    Located { pos: best.pos, err: best.err.merge(err) }
                }
            },
        };
        self.alt = Some(next);
    }

    /// Records the failure `err` at `at` behind the secondary failures.
    pub fn emit(&mut self, at: P, err: E)
        ensures
            final(self).secondary@ == old(self).secondary@.push(Located { pos: at, err }),
            final(self).alt == old(self).alt,
    {
        self.secondary.push(Located { pos: at, err });
    }
}

impl<P: Position, E: Error> InputRef<P, E> {
    /// A parse that starts at `cursor` with no failure recorded.
    pub fn new(cursor: P) -> (inp: Self)
        ensures
            inp.cursor == cursor,
            inp.errors.alt.is_none(),
            inp.errors.secondary@.len() == 0,
    {
        InputRef { cursor, errors: Errors::new() }
    }

    /// The cursor and the number of secondary failures as they are now.
    pub fn save(&self) -> (checkpoint: Checkpoint<P>)
        ensures
            checkpoint == checkpoint_of(*self),
            checkpoint.err_count == self.errors.secondary@.len(),
    {
        Checkpoint { cursor: self.cursor, err_count: self.errors.secondary.len() }
    }
}

/// The parse `inp` with its best alternative set aside.
pub open spec fn without_alt<P, E>(inp: InputRef<P, E>) -> InputRef<P, E> {
    InputRef { cursor: inp.cursor, errors: Errors { alt: None, secondary: inp.errors.secondary } }
}

/// The checkpoint that `save` gives on the parse `inp`.
pub open spec fn checkpoint_of<P, E>(inp: InputRef<P, E>) -> Checkpoint<P> {
    Checkpoint { cursor: inp.cursor, err_count: inp.errors.secondary@.len() as usize }
}

/// Whether the secondary failures `after` are those of `before`, untouched,
/// with further ones behind them, none of which lies in front of `entry`.
pub open spec fn extends_from<P: Position, E>(
    after: Seq<Located<P, E>>,
    before: Seq<Located<P, E>>,
    entry: P,
) -> bool {
    &&& before.len() <= after.len()
    &&& forall|i: int| 0 <= i < before.len() ==> after[i] == before[i]
    &&& forall|i: int|
        before.len() <= i < after.len() ==> entry.rank() <= (#[trigger] after[i]).pos.rank()
}

/// A parser: it runs on a parse, and either gives a value or leaves its
/// failure among the collected ones.
pub trait Parser<E: Error> {
    /// What a successful run gives.
    type Output;

    /// Whether a run that starts on the parse `before` may leave the parse
    /// `after` and give `res`. A parser that says nothing allows every run.
    open spec fn runs(
        &self,
        before: InputRef<PositionOf<E>, E>,
        after: InputRef<PositionOf<E>, E>,
        res: Option<Self::Output>,
    ) -> bool {
        true
    }

    /// Runs the parser from the cursor.
    ///
    /// A run leaves the secondary failures that it found in place, and records
    /// its own behind them, none at a position in front of the cursor it
    /// started from.
    fn go(&self, inp: &mut InputRef<PositionOf<E>, E>) -> (res: Option<Self::Output>)
        ensures
            self.runs(*old(inp), *final(inp), res),
            extends_from(
                final(inp).errors.secondary@,
                old(inp).errors.secondary@,
                old(inp).cursor,
            ),
    ;
}

} // verus!
