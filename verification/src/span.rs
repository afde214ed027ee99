//! Ordered positions and the spans between them.

use vstd::prelude::*;

verus! {

/// A totally ordered position in the input.
///
/// The order is the order of the integers that `rank` assigns; two positions
/// with the same rank are the same position.
pub trait Position: Sized + Copy {
    /// The integer that stands for this position in the order.
    spec fn rank(&self) -> int;

    /// Positions of equal rank are equal.
    proof fn rank_is_injective(a: Self, b: Self)
        requires
            a.rank() == b.rank(),
        ensures
            a == b,
    ;

    /// Whether `self` comes before `other` or is the same position.
    fn at_most(&self, other: &Self) -> (b: bool)
        ensures
            b == (self.rank() <= other.rank()),
    ;
}

impl Position for usize {
    open spec fn rank(&self) -> int {
        *self as int
    }

    proof fn rank_is_injective(a: Self, b: Self) {
    }

    fn at_most(&self, other: &Self) -> (b: bool) {
        *self <= *other
    }
}

/// The earlier of two positions; the first where they are equal.
pub open spec fn earlier<P: Position>(a: P, b: P) -> P {
    if a.rank() <= b.rank() {
        a
    } else {
        b
    }
}

/// The later of two positions; the first where they are equal.
pub open spec fn later<P: Position>(a: P, b: P) -> P {
    if b.rank() <= a.rank() {
        a
    } else {
        b
    }
}

/// A located region of the input, from `start` up to but excluding `end`.
pub trait Span: Sized + Copy {
    /// The positions that bound a span of this type.
    type Position: Position;

    /// The first position of the span.
    spec fn start_spec(&self) -> Self::Position;

    /// The position just behind the span.
    spec fn end_spec(&self) -> Self::Position;

    /// The span that runs from `start` up to `end`.
    fn between(start: Self::Position, end: Self::Position) -> (s: Self)
        requires
            start.rank() <= end.rank(),
        ensures
            s.start_spec() == start,
            s.end_spec() == end,
    ;

    /// The first position of the span.
    fn start(&self) -> (p: Self::Position)
        ensures
            p == self.start_spec(),
    ;

    /// The position just behind the span.
    fn end(&self) -> (p: Self::Position)
        ensures
            p == self.end_spec(),
    ;

    /// The smallest span that holds both `self` and `other`.
    fn union(self, other: Self) -> (s: Self)
        ensures
            s.start_spec() == earlier(self.start_spec(), other.start_spec()),
            s.end_spec() == later(self.end_spec(), other.end_spec()),
    ;

    /// The span that lies between `self` and `other` and touches neither,
    /// or `None` where `other` does not begin at or behind the end of `self`.
    fn inner(self, other: Self) -> (r: Option<Self>)
        ensures
            r.is_some() == (self.end_spec().rank() <= other.start_spec().rank()),
            r matches Some(s) ==> s.start_spec() == self.end_spec() && s.end_spec()
                == other.start_spec(),
    ;
}

/// Whether the span's start comes no later than its end.
pub open spec fn is_ordered<S: Span>(s: S) -> bool {
    s.start_spec().rank() <= s.end_spec().rank()
}

/// Whether `outer` begins no later than `inside` and ends no earlier.
pub open spec fn encloses<S: Span>(outer: S, inside: S) -> bool {
    outer.start_spec().rank() <= inside.start_spec().rank() && inside.end_spec().rank()
        <= outer.end_spec().rank()
}

/// Whether `u` has the bounds of the union of `a` and `b`: the earlier of the
/// two starts and the later of the two ends.
pub open spec fn is_union_of<S: Span>(u: S, a: S, b: S) -> bool {
    u.start_spec() == earlier(a.start_spec(), b.start_spec()) && u.end_spec() == later(
        a.end_spec(),
        b.end_spec(),
    )
}

/// Whether `s` has the bounds of the span between `a` and `b`: it begins where
/// `a` ends and ends where `b` begins.
pub open spec fn is_inner_of<S: Span>(s: S, a: S, b: S) -> bool {
    s.start_spec() == a.end_spec() && s.end_spec() == b.start_spec()
}

/// A union encloses both of its operands, and every span that encloses both
/// operands encloses the union: it is the least such span.
pub proof fn lemma_union_is_least_enclosing<S: Span>(a: S, b: S, u: S, t: S)
    requires
        is_union_of(u, a, b),
    ensures
        encloses(u, a),
        encloses(u, b),
        encloses(t, a) && encloses(t, b) ==> encloses(t, u),
        is_ordered(a) || is_ordered(b) ==> is_ordered(u),
{
}

/// A least enclosing span has the bounds of the union: where `u` encloses
/// both `a` and `b`, and the union `w` of the two encloses `u`, the bounds of
/// `u` are those of `w`. A span type may hold more than its bounds, so `u` and
/// `w` need not be one value.
pub proof fn lemma_least_enclosing_is_union<S: Span>(a: S, b: S, u: S, w: S)
    requires
        encloses(u, a),
        encloses(u, b),
        is_union_of(w, a, b),
        encloses(w, u),
    ensures
        is_union_of(u, a, b),
        u.start_spec() == w.start_spec(),
        u.end_spec() == w.end_spec(),
{
    S::Position::rank_is_injective(u.start_spec(), w.start_spec());
    S::Position::rank_is_injective(u.end_spec(), w.end_spec());
}

/// The union of two spans does not depend on their order.
pub proof fn lemma_union_commutes<S: Span>(a: S, b: S, u: S)
    requires
        is_union_of(u, a, b),
    ensures
        is_union_of(u, b, a),
{
    if a.start_spec().rank() == b.start_spec().rank() {
        S::Position::rank_is_injective(a.start_spec(), b.start_spec());
    }
    if a.end_spec().rank() == b.end_spec().rank() {
        S::Position::rank_is_injective(a.end_spec(), b.end_spec());
    }
}

/// Where `a` ends no later than `b` begins, the span between them is ordered,
/// begins where `a` ends and ends where `b` begins, so that it shares no
/// position with either; the three spans together fill the union of `a` and `b`
/// when both are ordered.
pub proof fn lemma_inner_lies_between<S: Span>(a: S, b: S, s: S, u: S)
    requires
        a.end_spec().rank() <= b.start_spec().rank(),
        is_inner_of(s, a, b),
        is_union_of(u, a, b),
    ensures
        is_ordered(s),
        a.end_spec().rank() <= s.start_spec().rank(),
        s.end_spec().rank() <= b.start_spec().rank(),
        is_ordered(a) && is_ordered(b) ==> encloses(u, s) && u.start_spec() == a.start_spec()
            && u.end_spec() == b.end_spec(),
{
    if is_ordered(a) && is_ordered(b) {
        if a.start_spec().rank() == b.start_spec().rank() {
            S::Position::rank_is_injective(a.start_spec(), b.start_spec());
        }
        if a.end_spec().rank() == b.end_spec().rank() {
            S::Position::rank_is_injective(a.end_spec(), b.end_spec());
        }
    }
}

/// A span given by its two bounds, over any position type.
#[derive(Clone, Copy, Debug, PartialEq, Eq)]
pub struct Interval<P> {
    /// The first position of the span.
    pub start: P,
    /// The position just behind the span.
    pub end: P,
}

impl<P: Position> Span for Interval<P> {
    type Position = P;

    open spec fn start_spec(&self) -> P {
        self.start
    }

    open spec fn end_spec(&self) -> P {
        self.end
    }

    fn between(start: P, end: P) -> (s: Self) {
        Interval { start, end }
    }

    fn start(&self) -> (p: P) {
        self.start
    }

    fn end(&self) -> (p: P) {
        self.end
    }

    fn union(self, other: Self) -> (s: Self) {
        let start = if self.start.at_most(&other.start) {
            self.start
        } else {
            other.start
        };
        let end = if other.end.at_most(&self.end) {
            self.end
        } else {
            other.end
        };
        Interval { start, end }
    }

    fn inner(self, other: Self) -> (r: Option<Self>) {
        if self.end.at_most(&other.start) {
            Some(Interval { start: self.end, end: other.start })
        } else {
            None
        }
    }
}

} // verus!
