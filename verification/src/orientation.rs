//! The canonical orientation of a capsule: the rotation that turns the
//! reference axis onto the capsule's own.
use vstd::prelude::*;
use crate::reading::Comparison;
use crate::reference::REFERENCE_AXIS;

verus! {

/// A direction along a segment.
#[derive(Clone, Copy, Debug, PartialEq, Eq, Structural)]
pub enum Span {
    /// From the first end to the second: `b - a`.
    AToB,
    /// From the second end to the first: `a - b`.
    BToA,
}

impl Span {
    /// The same direction, named on the segment with its ends exchanged.
    pub open spec fn exchanged(self) -> Span {
        match self {
            Span::AToB => Span::BToA,
            Span::BToA => Span::AToB,
        }
    }
}

/// A rotation, or the one that turns nothing.
#[derive(Clone, Copy, Debug, PartialEq, Eq)]
pub enum Alignment<R> {
    /// The rotation given.
    Rotation(R),
    /// The identity.
    Identity,
}

/// The direction of the canonical axis of a segment whose `b - a` has a
/// reference coordinate that reads `rise` against zero.
pub open spec fn spec_canonical_span(rise: Comparison) -> Span {
    if rise == Comparison::Less {
        Span::BToA
    } else {
        Span::AToB
    }
}

/// How the reference coordinate of the direction `span` reads against zero,
/// on a segment whose `b - a` reads `rise`.
pub open spec fn rise_along(span: Span, rise: Comparison) -> Comparison {
    match span {
        Span::AToB => rise,
        Span::BToA => rise.flipped(),
    }
}

/// The direction that a capsule's canonical rotation turns the reference axis
/// onto. `rise` is the reading of the reference coordinate of `b - a` against
/// zero. The direction is `b - a`, and `a - b` where that coordinate is
/// negative, so it never points down the reference axis.
pub fn canonical_span(rise: Comparison) -> (span: Span)
    ensures
        span == spec_canonical_span(rise),
        rise_along(span, rise) != Comparison::Less,
{
    if rise == Comparison::Less {
        Span::BToA
    } else {
        Span::AToB
    }
}

/// The canonical rotation of a capsule, from the rotation that was found
/// between the reference axis and the capsule's canonical direction: where
/// none exists, the identity.
pub fn rotation_wrt_y<R>(between: Option<R>) -> (alignment: Alignment<R>)
    ensures
        alignment == match between {
            Some(rotation) => Alignment::Rotation(rotation),
            None => Alignment::<R>::Identity,
        },
{
    match between {
        Some(rotation) => Alignment::Rotation(rotation),
        None => Alignment::Identity,
    }
}

/// The canonical direction of the segment from `a` to `b`, two points with
/// exact coordinates.
pub open spec fn canonical_axis(a: Seq<int>, b: Seq<int>) -> Seq<int>
    recommends
        a.len() == b.len(),
        REFERENCE_AXIS < a.len(),
{
    let rise = Comparison::between(b[REFERENCE_AXIS as int] - a[REFERENCE_AXIS as int], 0);
    match spec_canonical_span(rise) {
        Span::AToB => Seq::new(a.len(), |i: int| b[i] - a[i]),
        Span::BToA => Seq::new(a.len(), |i: int| a[i] - b[i]),
    }
}

/// The canonical direction of a segment never points down the reference
/// axis, and it does not depend on which end was given first, as long as the
/// two ends differ in their reference coordinate. On a segment that lies level
/// it is `b - a`, and changes sign with the order of the ends.
pub proof fn lemma_canonical_axis_ignores_end_order(a: Seq<int>, b: Seq<int>)
    requires
        a.len() == b.len(),
        REFERENCE_AXIS < a.len(),
    ensures
        canonical_axis(a, b)[REFERENCE_AXIS as int] >= 0,
        a[REFERENCE_AXIS as int] != b[REFERENCE_AXIS as int] ==> canonical_axis(a, b)
            == canonical_axis(b, a),
{
    if a[REFERENCE_AXIS as int] != b[REFERENCE_AXIS as int] {
        assert(canonical_axis(a, b) =~= canonical_axis(b, a));
    }
}

/// In every arithmetic in which `a - b` is the negative of `b - a`, exchanging
/// the ends of a segment flips the reading of its rise. The canonical
/// direction of a segment that rises or falls along the reference axis then
/// stays as it is.
pub proof fn lemma_canonical_span_ignores_end_order(rise: Comparison)
    requires
        rise == Comparison::Less || rise == Comparison::Greater,
    ensures
        spec_canonical_span(rise.flipped()).exchanged() == spec_canonical_span(rise),
{
}

} // verus!
