//! The projection of a point onto a capsule.
//!
//! The caller projects the point onto the capsule's axis, which gives the base
//! point, and measures what separates the point from it. The rules here say
//! where the projection lies: at the point itself, or on the surface, one
//! radius from the base point along a direction.
use vstd::prelude::*;
use crate::reading::Comparison;
use crate::reference::Direction;

verus! {

/// What separates a query point from its projection on the capsule's axis.
#[derive(Clone, Copy, Debug, PartialEq, Eq)]
pub struct Separation<D> {
    /// The unit vector from the projection on the axis to the point.
    pub direction: D,
    /// How the distance between the two reads against the capsule's radius.
    pub distance_vs_radius: Comparison,
}

/// Whether a point lies in the capsule. `separation` is what separates it from
/// the axis, `None` for a point on the axis: the points on the axis lie in the
/// capsule, and so do those at a distance of at most the radius.
pub open spec fn is_inside<D>(separation: Option<Separation<D>>) -> bool {
    match separation {
        None => true,
        Some(s) => s.distance_vs_radius.is_at_most(),
    }
}

/// Where a projection lies.
#[derive(Clone, Copy, Debug, PartialEq, Eq)]
pub enum Placement<D> {
    /// At the query point itself.
    Query,
    /// On the surface: at the base point moved by the radius along the
    /// direction.
    Surface(Direction<D>),
}

/// The projection of a point onto a capsule.
#[derive(Clone, Copy, Debug, PartialEq, Eq)]
pub struct Projection<D> {
    /// Whether the query point lies in the capsule.
    pub is_inside: bool,
    /// Where the projection lies.
    pub placement: Placement<D>,
}

/// The part of a shape's boundary that a query result lies on.
#[derive(Clone, Copy, Debug, PartialEq, Eq, Structural)]
pub enum FeatureId {
    /// A vertex, by its index.
    Vertex(usize),
    /// An edge, by its index.
    Edge(usize),
    /// A face, by its index.
    Face(usize),
    /// A part that is not known.
    Unknown,
}

/// The direction from the base point to the surface point of a projection:
/// that of the separation where there is one; else `perpendicular`, a unit
/// vector at right angles to the capsule's axis; and the reference direction
/// where the axis is a single point and has none.
pub open spec fn surface_direction<D>(
    separation: Option<Separation<D>>,
    perpendicular: Option<D>,
) -> Direction<D> {
    match separation {
        Some(s) => Direction::Along(s.direction),
        None => match perpendicular {
            Some(p) => Direction::Along(p),
            None => Direction::Reference,
        },
    }
}

/// The projection of a point onto a capsule: a point in a solid capsule is its
/// own projection, every other point is projected onto the surface.
pub open spec fn spec_project_point<D>(
    solid: bool,
    separation: Option<Separation<D>>,
    perpendicular: Option<D>,
) -> Projection<D> {
    Projection {
        is_inside: is_inside(separation),
        placement: if solid && is_inside(separation) {
            Placement::Query
        } else {
            Placement::Surface(surface_direction(separation, perpendicular))
        },
    }
}

/// Projects a point onto a capsule, solid or hollow.
///
/// `separation` is what was measured between the point and its projection on
/// the axis, `None` where the two are too close to span a direction.
/// `perpendicular` is a unit vector at right angles to the axis, `None` where
/// the axis is a single point.
pub fn project_point<D>(
    solid: bool,
    separation: Option<Separation<D>>,
    perpendicular: Option<D>,
) -> (projection: Projection<D>)
    ensures
        projection == spec_project_point(solid, separation, perpendicular),
{
    match separation {
        Some(s) => {
            let inside = match s.distance_vs_radius {
                Comparison::Less => true,
                Comparison::Equal => true,
                _ => false,
            };
            if solid && inside {
                Projection { is_inside: true, placement: Placement::Query }
            } else {
                Projection {
                    is_inside: inside,
                    placement: Placement::Surface(Direction::Along(s.direction)),
                }
            }
        },
        None => {
            if solid {
                Projection { is_inside: true, placement: Placement::Query }
            } else {
                match perpendicular {
                    Some(p) => Projection {
                        is_inside: true,
                        placement: Placement::Surface(Direction::Along(p)),
                    },
                    None => Projection {
                        is_inside: true,
                        placement: Placement::Surface(Direction::Reference),
                    },
                }
            }
        },
    }
}

/// Projects a point onto the surface of a capsule, and names the part of the
/// surface that the projection lies on. A capsule has one surface: the tag is
/// the same for its caps and for its side.
pub fn project_point_with_feature<D>(
    separation: Option<Separation<D>>,
    perpendicular: Option<D>,
) -> (r: (Projection<D>, FeatureId))
    ensures
        r.0 == spec_project_point(false, separation, perpendicular),
        r.1 == FeatureId::Face(0),
{
    (project_point(false, separation, perpendicular), FeatureId::Face(0))
}

/// A point in a solid capsule is its own projection.
pub proof fn lemma_solid_keeps_inside_points<D>(
    separation: Option<Separation<D>>,
    perpendicular: Option<D>,
)
    requires
        is_inside(separation),
    ensures
        spec_project_point(true, separation, perpendicular) == (Projection {
            is_inside: true,
            placement: Placement::<D>::Query,
        }),
{
}

/// Every projection onto a hollow capsule lies on its surface, one radius from
/// the axis, and so does the projection of a point outside a solid one.
pub proof fn lemma_surface_is_reached<D>(
    solid: bool,
    separation: Option<Separation<D>>,
    perpendicular: Option<D>,
)
    requires
        !solid || !is_inside(separation),
    ensures
        spec_project_point(solid, separation, perpendicular).placement is Surface,
{
}

/// A point off the axis is projected along what separates it from the axis,
/// whatever the axis looks like.
pub proof fn lemma_separation_gives_direction<D>(
    solid: bool,
    separation: Separation<D>,
    perpendicular: Option<D>,
)
    ensures
        spec_project_point(solid, Some(separation), perpendicular).placement is Surface
            ==> spec_project_point(solid, Some(separation), perpendicular).placement
            == Placement::Surface(Direction::Along(separation.direction)),
{
}

} // verus!
