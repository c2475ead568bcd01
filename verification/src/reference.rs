//! The reference axis, which every fallback of the crate refers to.
use vstd::prelude::*;

verus! {

/// The index of the reference axis among the coordinate axes. A capsule's
/// canonical rotation starts from this axis; a support query without a
/// direction looks along it; and a projection onto a capsule that is a single
/// point is offset along it.
pub const REFERENCE_AXIS: usize = 1;

/// A direction along which a point is offset.
#[derive(Clone, Copy, Debug, PartialEq, Eq)]
pub enum Direction<D> {
    /// The unit vector given.
    Along(D),
    /// The unit vector of the reference axis.
    Reference,
}

} // verus!
