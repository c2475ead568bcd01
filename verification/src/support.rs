//! The support mapping of a capsule: the point of it that lies farthest along
//! a direction. It is the end of the axis on the direction's side, moved by
//! the radius along the direction.
use vstd::prelude::*;
use crate::exact::{dot, lemma_dot_within_lengths};
use crate::reading::Comparison;
use crate::reference::Direction;
use crate::shape::{Capsule, End};

verus! {

/// The end of the axis that a support point is built on: `a` where `a` lies
/// strictly farther along the direction than `b`, else `b`.
pub open spec fn spec_support_end(a_vs_b: Comparison) -> End {
    if a_vs_b == Comparison::Greater {
        End::A
    } else {
        End::B
    }
}

/// The direction of a support query: the unit vector of the direction asked
/// for, and the reference direction where what was asked for is too short to
/// have one. Every query, the one along the zero vector too, has a direction.
pub fn support_direction<D>(unit: Option<D>) -> (direction: Direction<D>)
    ensures
        direction == match unit {
            Some(d) => Direction::Along(d),
            None => Direction::<D>::Reference,
        },
{
    match unit {
        Some(d) => Direction::Along(d),
        None => Direction::Reference,
    }
}

/// The end of the axis that a support point is built on. `a_vs_b` is how the
/// extent of `a` along the direction (its dot product with it) reads against
/// that of `b`. The support point is that end, moved by the radius along the
/// direction.
pub fn support_end(a_vs_b: Comparison) -> (end: End)
    ensures
        end == spec_support_end(a_vs_b),
{
    if a_vs_b == Comparison::Greater {
        End::A
    } else {
        End::B
    }
}

/// No point of a capsule lies farther along a direction than its support
/// point.
///
/// The capsule has exact coordinates, and `dir` has the exact length `length`.
/// A point of the capsule is a point of the axis, here the mean of the two
/// ends with the weights `weight_a` and `weight_b`, moved by an `offset` no
/// longer than the radius. Its extent along `dir` is at most that of the end
/// chosen by [`support_end`] moved by the radius along `dir`; both sides are
/// stated times the sum of the weights.
pub proof fn lemma_support_point_is_farthest(
    capsule: Capsule<Seq<int>, nat>,
    dir: Seq<int>,
    length: nat,
    weight_a: nat,
    weight_b: nat,
    offset: Seq<int>,
)
    requires
        capsule.segment.a.len() == dir.len(),
        capsule.segment.b.len() == dir.len(),
        offset.len() == dir.len(),
        dot(dir, dir) == length * length,
        dot(offset, offset) <= capsule.radius * capsule.radius,
    ensures
        ({
            let extent_a = dot(capsule.segment.a, dir);
            let extent_b = dot(capsule.segment.b, dir);
            let end = spec_support_end(Comparison::between(extent_a, extent_b));
            weight_a * extent_a + weight_b * extent_b + (weight_a + weight_b) * dot(offset, dir)
                <= (weight_a + weight_b) * (dot(capsule.spec_end(end), dir) + capsule.radius
                * length)
        }),
{
    let extent_a = dot(capsule.segment.a, dir);
    let extent_b = dot(capsule.segment.b, dir);
    let end = spec_support_end(Comparison::between(extent_a, extent_b));
    let farthest = dot(capsule.spec_end(end), dir);
    let reach = capsule.radius * length;
    let along = dot(offset, dir);
    lemma_dot_within_lengths(offset, dir, capsule.radius, length);
    assert(weight_a * extent_a + weight_b * extent_b + (weight_a + weight_b) * along <= (weight_a
        + weight_b) * (farthest + reach)) by (nonlinear_arith)
        requires
            extent_a <= farthest,
            extent_b <= farthest,
            along <= reach,
    ;
}

} // verus!
