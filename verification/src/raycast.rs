//! The intersection of a ray with a capsule that stands at a pose.
//!
//! The capsule stays where it is described, in its own frame: the ray is
//! brought into that frame, cast there, and what it hits is brought back.
use vstd::prelude::*;

verus! {

/// Whether `world` is a hit of the ray `local`, as seen from outside the
/// capsule's frame: `cast` has hit with `local`, and `to_world` has made
/// `world` of that hit.
pub open spec fn is_hit<R, H, C, W>(local: R, cast: C, to_world: W, world: H) -> bool where
    C: FnOnce(R) -> Option<H>,
    W: FnOnce(H) -> H,
 {
    exists|hit: H| cast.ensures((local,), Some(hit)) && #[trigger] to_world.ensures((hit,), world)
}

/// Whether `reported` is what a cast of `ray` reports: `cast` has seen the ray
/// that `localize` made of `ray`, a miss of it is a miss, and a hit of it is
/// reported as `to_world` gave it back.
pub open spec fn is_outcome<R, H, L, C, W>(
    ray: R,
    localize: L,
    cast: C,
    to_world: W,
    reported: Option<H>,
) -> bool where L: FnOnce(R) -> R, C: FnOnce(R) -> Option<H>, W: FnOnce(H) -> H {
    exists|local: R| #[trigger]
        localize.ensures((ray,), local) && match reported {
            None => cast.ensures((local,), None),
            Some(world) => is_hit(local, cast, to_world, world),
        }
}

/// Casts a ray on a capsule that stands at a pose.
///
/// `localize` brings the ray into the capsule's frame, `cast` casts a ray of
/// that frame on the capsule, and `to_world` turns a hit, whose normal is one
/// of that frame, by the pose. A ray that misses, or that hits too late for
/// `cast`, gives `None`.
pub fn toi_and_normal_with_ray<R, H, L, C, W>(
    ray: R,
    localize: L,
    cast: C,
    to_world: W,
) -> (reported: Option<H>) where L: FnOnce(R) -> R, C: FnOnce(R) -> Option<H>, W: FnOnce(H) -> H
    requires
        localize.requires((ray,)),
        forall|local: R| localize.ensures((ray,), local) ==> cast.requires((local,)),
        forall|local: R, hit: H|
            localize.ensures((ray,), local) && cast.ensures((local,), Some(hit))
                ==> to_world.requires((hit,)),
    ensures
        is_outcome(ray, localize, cast, to_world, reported),
{
    let local = localize(ray);
    match cast(local) {
        None => None,
        Some(hit) => {
            let world = to_world(hit);
            assert(is_hit(local, cast, to_world, world));
            Some(world)
        },
    }
}

} // verus!
