//! The axis-aligned box around a capsule. Along each coordinate axis it runs
//! from the lower of the two ends to the upper one, and the radius farther on
//! both sides.
use vstd::prelude::*;
use crate::exact::{dot, lemma_coordinate_within_length};
use crate::reading::Comparison;
use crate::shape::{Capsule, End};

verus! {

/// The end with the lower coordinate: `a` where it is at most that of `b`,
/// else `b`.
pub open spec fn spec_lower_end(a_vs_b: Comparison) -> End {
    if a_vs_b.is_at_most() {
        End::A
    } else {
        End::B
    }
}

/// The end with the upper coordinate: `a` where it is at least that of `b`,
/// else `b`.
pub open spec fn spec_upper_end(a_vs_b: Comparison) -> End {
    if a_vs_b.is_at_least() {
        End::A
    } else {
        End::B
    }
}

/// The end that bounds the box from below along one axis. `a_vs_b` is how the
/// coordinate of `a` on that axis reads against that of `b`. The box starts
/// at the coordinate of the end returned, less the radius.
pub fn lower_end(a_vs_b: Comparison) -> (end: End)
    ensures
        end == spec_lower_end(a_vs_b),
{
    match a_vs_b {
        Comparison::Less => End::A,
        Comparison::Equal => End::A,
        _ => End::B,
    }
}

/// The end that bounds the box from above along one axis. `a_vs_b` is how the
/// coordinate of `a` on that axis reads against that of `b`. The box ends at
/// the coordinate of the end returned, plus the radius.
pub fn upper_end(a_vs_b: Comparison) -> (end: End)
    ensures
        end == spec_upper_end(a_vs_b),
{
    match a_vs_b {
        Comparison::Greater => End::A,
        Comparison::Equal => End::A,
        _ => End::B,
    }
}

/// The box holds every point of the capsule.
///
/// The capsule has exact coordinates. A point of it is a point of the axis,
/// here the mean of the two ends with the weights `weight_a` and `weight_b`,
/// moved by an `offset` no longer than the radius. Along every `axis` its
/// coordinate lies between the two bounds of the box; all three are stated
/// times the sum of the weights. With all the weight on one end, the point is
/// any point of the ball around that end.
pub proof fn lemma_box_holds_capsule(
    capsule: Capsule<Seq<int>, nat>,
    axis: int,
    weight_a: nat,
    weight_b: nat,
    offset: Seq<int>,
)
    requires
        0 <= axis < offset.len(),
        capsule.segment.a.len() == offset.len(),
        capsule.segment.b.len() == offset.len(),
        dot(offset, offset) <= capsule.radius * capsule.radius,
    ensures
        ({
            let a = capsule.segment.a[axis];
            let b = capsule.segment.b[axis];
            let reading = Comparison::between(a, b);
            let lower = capsule.spec_end(spec_lower_end(reading))[axis] - capsule.radius;
            let upper = capsule.spec_end(spec_upper_end(reading))[axis] + capsule.radius;
            let point = weight_a * a + weight_b * b + (weight_a + weight_b) * offset[axis];
            (weight_a + weight_b) * lower <= point <= (weight_a + weight_b) * upper
        }),
{
    let a = capsule.segment.a[axis];
    let b = capsule.segment.b[axis];
    let reading = Comparison::between(a, b);
    let low = capsule.spec_end(spec_lower_end(reading))[axis];
    let high = capsule.spec_end(spec_upper_end(reading))[axis];
    let r = capsule.radius as int;
    let moved = offset[axis];
    lemma_coordinate_within_length(offset, axis, capsule.radius);
    assert((weight_a + weight_b) * (low - r) <= weight_a * a + weight_b * b + (weight_a
        + weight_b) * moved <= (weight_a + weight_b) * (high + r)) by (nonlinear_arith)
        requires
            low <= a <= high,
            low <= b <= high,
            -r <= moved <= r,
    ;
}

} // verus!
