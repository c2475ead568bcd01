//! The capsule as a value: two ends and a radius.
use vstd::prelude::*;

verus! {

/// One of the two ends of a segment.
#[derive(Clone, Copy, Debug, PartialEq, Eq, Structural)]
pub enum End {
    A,
    B,
}

/// A straight segment between two points of type `P`.
#[derive(Clone, Copy, Debug, PartialEq, Eq)]
pub struct Segment<P> {
    /// The first end.
    pub a: P,
    /// The second end.
    pub b: P,
}

/// A capsule: every point within `radius` of `segment`.
///
/// The two ends may be the same point: the capsule is then a ball.
#[derive(Clone, Copy, Debug, PartialEq, Eq)]
pub struct Capsule<P, S> {
    /// The axis of the capsule, with its two ends.
    pub segment: Segment<P>,
    /// The radius of the capsule.
    pub radius: S,
}

impl<P, S> Capsule<P, S> {
    /// The end of the axis that `end` names.
    pub open spec fn spec_end(&self, end: End) -> P {
        match end {
            End::A => self.segment.a,
            End::B => self.segment.b,
        }
    }
}

impl<P: Copy, S: Copy> Capsule<P, S> {
    /// Whether `moved` is what `pose` makes of `self`: each end is an image of
    /// the same end, and the radius is the same.
    pub open spec fn is_image<F: Fn(P) -> P>(self, pose: F, moved: Self) -> bool {
        &&& pose.ensures((self.segment.a,), moved.segment.a)
        &&& pose.ensures((self.segment.b,), moved.segment.b)
        &&& moved.radius == self.radius
    }

    /// The capsule around the segment from `a` to `b`.
    pub fn new(a: P, b: P, radius: S) -> (c: Self)
        ensures
            c.segment.a == a,
            c.segment.b == b,
            c.radius == radius,
    {
        Capsule { segment: Segment { a, b }, radius }
    }

    /// The end of the axis that `end` names.
    pub fn end(&self, end: End) -> (p: P)
        ensures
            p == self.spec_end(end),
    {
        match end {
            End::A => self.segment.a,
            End::B => self.segment.b,
        }
    }

    /// The capsule with both ends moved by `pose`, a map on points. The radius
    /// stays as it is.
    pub fn transform_by<F: Fn(P) -> P>(&self, pose: F) -> (moved: Self)
        requires
            pose.requires((self.segment.a,)),
            pose.requires((self.segment.b,)),
        ensures
            self.is_image(pose, moved),
    {
        let a = pose(self.segment.a);
        let b = pose(self.segment.b);
        Capsule { segment: Segment { a, b }, radius: self.radius }
    }

    /// Moving a capsule and then moving it back restores it: where `back`
    /// undoes `there` on every point, the capsule that comes back has the ends
    /// and the radius that it started with.
    pub proof fn lemma_inverse_pose_restores<F: Fn(P) -> P, G: Fn(P) -> P>(
        self,
        there: F,
        back: G,
        moved: Self,
        returned: Self,
    )
        requires
            self.is_image(there, moved),
            moved.is_image(back, returned),
            forall|p: P, q: P, r: P| #[trigger]
                there.ensures((p,), q) && #[trigger] back.ensures((q,), r) ==> r == p,
        ensures
            returned == self,
    {
    }
}

} // verus!
