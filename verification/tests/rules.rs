use capsule::bounds::{lower_end, upper_end};
use capsule::orientation::{canonical_span, rotation_wrt_y, Alignment, Span};
use capsule::projection::{
    project_point, project_point_with_feature, FeatureId, Placement, Projection, Separation,
};
use capsule::raycast::toi_and_normal_with_ray;
use capsule::reading::Comparison;
use capsule::reference::{Direction, REFERENCE_AXIS};
use capsule::shape::{Capsule, End};
use capsule::support::{support_direction, support_end};
use std::cell::Cell;

const READINGS: [Comparison; 4] =
    [Comparison::Less, Comparison::Equal, Comparison::Greater, Comparison::Unordered];

fn apart(direction: &'static str, reading: Comparison) -> Option<Separation<&'static str>> {
    Some(Separation { direction, distance_vs_radius: reading })
}

#[test]
fn reference_axis_is_the_second_axis() {
    assert_eq!(REFERENCE_AXIS, 1);
}

#[test]
fn reading_of_ordered_numbers() {
    assert_eq!(Comparison::of(1.0f32.partial_cmp(&2.0)), Comparison::Less);
    assert_eq!(Comparison::of(2.0f32.partial_cmp(&2.0)), Comparison::Equal);
    assert_eq!(Comparison::of(3.0f32.partial_cmp(&2.0)), Comparison::Greater);
    assert_eq!(Comparison::of(7u8.partial_cmp(&9)), Comparison::Less);
}

#[test]
fn reading_of_signed_zeros_is_equal() {
    assert_eq!(Comparison::of((-0.0f32).partial_cmp(&0.0)), Comparison::Equal);
}

#[test]
fn reading_of_not_a_number_is_unordered() {
    assert_eq!(Comparison::of(f32::NAN.partial_cmp(&0.0)), Comparison::Unordered);
    assert_eq!(Comparison::of(0.0f32.partial_cmp(&f32::NAN)), Comparison::Unordered);
    assert_eq!(Comparison::of(None), Comparison::Unordered);
}

#[test]
fn new_keeps_ends_and_radius() {
    let c = Capsule::new([-1.0f32, 0.0, 0.0], [1.0f32, 0.0, 0.0], 0.5f32);
    assert_eq!(c.segment.a, [-1.0, 0.0, 0.0]);
    assert_eq!(c.segment.b, [1.0, 0.0, 0.0]);
    assert_eq!(c.radius, 0.5);
}

#[test]
fn new_accepts_a_single_point() {
    let c = Capsule::new((2, 3), (2, 3), 4);
    assert_eq!(c.segment.a, c.segment.b);
    assert_eq!(c.radius, 4);
}

#[test]
fn end_names_each_end() {
    let c = Capsule::new("first", "second", 1u8);
    assert_eq!(c.end(End::A), "first");
    assert_eq!(c.end(End::B), "second");
}

#[test]
fn transform_by_moves_both_ends_and_keeps_the_radius() {
    let c = Capsule::new([-1i32, 0, 0], [1i32, 0, 0], 5u8);
    let moved = c.transform_by(|p: [i32; 3]| [p[0] + 10, p[1] - 2, 3 * p[2] + 1]);
    assert_eq!(moved.segment.a, [9, -2, 1]);
    assert_eq!(moved.segment.b, [11, -2, 1]);
    assert_eq!(moved.radius, 5);
    assert_eq!(c.segment.a, [-1, 0, 0]);
}

#[test]
fn transform_by_calls_the_pose_once_for_each_end() {
    let calls = Cell::new(0u32);
    let c = Capsule::new(1i64, 2i64, 3i64);
    let moved = c.transform_by(|p: i64| {
        calls.set(calls.get() + 1);
        -p
    });
    assert_eq!(calls.get(), 2);
    assert_eq!((moved.segment.a, moved.segment.b, moved.radius), (-1, -2, 3));
}

#[test]
fn moving_there_and_back_restores_the_capsule() {
    let c = Capsule::new([4i32, -7], [0i32, 12], 9u16);
    let there = |p: [i32; 2]| [p[1] + 3, -p[0] + 5];
    let back = |q: [i32; 2]| [-(q[1] - 5), q[0] - 3];
    let returned = c.transform_by(there).transform_by(back);
    assert_eq!(returned, c);
}

#[test]
fn support_direction_keeps_a_direction() {
    assert_eq!(support_direction(Some([0.0f32, 0.0, 1.0])), Direction::Along([0.0, 0.0, 1.0]));
}

#[test]
fn support_direction_of_no_direction_is_the_reference() {
    assert_eq!(support_direction::<[f32; 3]>(None), Direction::Reference);
}

#[test]
fn support_end_is_a_only_where_a_lies_farther() {
    assert_eq!(support_end(Comparison::Greater), End::A);
    assert_eq!(support_end(Comparison::Less), End::B);
    assert_eq!(support_end(Comparison::Equal), End::B);
    assert_eq!(support_end(Comparison::Unordered), End::B);
}

#[test]
fn support_end_lies_farthest_along_a_direction() {
    let ends = [(3i32, -4i32), (-4, 3), (5, 5), (0, -1)];
    for (a, b) in ends {
        let end = support_end(Comparison::of(a.partial_cmp(&b)));
        let c = Capsule::new(a, b, 0u8);
        assert_eq!(c.end(end), a.max(b));
    }
}

#[test]
fn lower_end_is_a_unless_b_lies_lower() {
    assert_eq!(lower_end(Comparison::Less), End::A);
    assert_eq!(lower_end(Comparison::Equal), End::A);
    assert_eq!(lower_end(Comparison::Greater), End::B);
    assert_eq!(lower_end(Comparison::Unordered), End::B);
}

#[test]
fn upper_end_is_a_unless_b_lies_higher() {
    assert_eq!(upper_end(Comparison::Greater), End::A);
    assert_eq!(upper_end(Comparison::Equal), End::A);
    assert_eq!(upper_end(Comparison::Less), End::B);
    assert_eq!(upper_end(Comparison::Unordered), End::B);
}

#[test]
fn box_holds_both_ends_on_every_axis() {
    let c = Capsule::new([3i32, -4, 7], [-2i32, 5, 7], 2i32);
    for axis in 0..3 {
        let a_vs_b = Comparison::of(c.segment.a[axis].partial_cmp(&c.segment.b[axis]));
        let lower = c.end(lower_end(a_vs_b))[axis] - c.radius;
        let upper = c.end(upper_end(a_vs_b))[axis] + c.radius;
        assert_eq!(lower, c.segment.a[axis].min(c.segment.b[axis]) - 2);
        assert_eq!(upper, c.segment.a[axis].max(c.segment.b[axis]) + 2);
        assert!(lower <= c.segment.a[axis] - c.radius && c.segment.a[axis] + c.radius <= upper);
        assert!(lower <= c.segment.b[axis] - c.radius && c.segment.b[axis] + c.radius <= upper);
    }
}

#[test]
fn canonical_span_turns_a_falling_segment() {
    assert_eq!(canonical_span(Comparison::Less), Span::BToA);
    assert_eq!(canonical_span(Comparison::Greater), Span::AToB);
    assert_eq!(canonical_span(Comparison::Equal), Span::AToB);
    assert_eq!(canonical_span(Comparison::Unordered), Span::AToB);
}

#[test]
fn canonical_span_ignores_the_order_of_the_ends() {
    let (a, b) = ([0i32, 3, 1], [2i32, -5, 1]);
    let along = |from: [i32; 3], to: [i32; 3], span: Span| match span {
        Span::AToB => [to[0] - from[0], to[1] - from[1], to[2] - from[2]],
        Span::BToA => [from[0] - to[0], from[1] - to[1], from[2] - to[2]],
    };
    let rise = |from: [i32; 3], to: [i32; 3]| {
        Comparison::of((to[REFERENCE_AXIS] - from[REFERENCE_AXIS]).partial_cmp(&0))
    };
    let given = along(a, b, canonical_span(rise(a, b)));
    let exchanged = along(b, a, canonical_span(rise(b, a)));
    assert_eq!(given, [-2, 8, 0]);
    assert_eq!(exchanged, given);
}

#[test]
fn canonical_span_of_a_level_segment_follows_the_ends() {
    assert_eq!(canonical_span(Comparison::of(0.0f32.partial_cmp(&0.0))), Span::AToB);
    assert_eq!(canonical_span(Comparison::of((-0.0f32).partial_cmp(&0.0))), Span::AToB);
}

#[test]
fn rotation_wrt_y_keeps_a_rotation() {
    assert_eq!(rotation_wrt_y(Some(90i32)), Alignment::Rotation(90));
}

#[test]
fn rotation_wrt_y_without_a_rotation_is_the_identity() {
    assert_eq!(rotation_wrt_y::<i32>(None), Alignment::Identity);
}

#[test]
fn solid_capsule_keeps_a_point_on_the_axis() {
    let expected = Projection { is_inside: true, placement: Placement::Query };
    assert_eq!(project_point(true, None, Some("side")), expected);
    assert_eq!(project_point::<&str>(true, None, None), expected);
}

#[test]
fn solid_capsule_keeps_a_point_within_the_radius() {
    let expected = Projection { is_inside: true, placement: Placement::Query };
    assert_eq!(project_point(true, apart("out", Comparison::Less), Some("side")), expected);
    assert_eq!(project_point(true, apart("out", Comparison::Equal), None), expected);
}

#[test]
fn hollow_capsule_moves_a_point_within_the_radius_to_the_surface() {
    let expected =
        Projection { is_inside: true, placement: Placement::Surface(Direction::Along("out")) };
    assert_eq!(project_point(false, apart("out", Comparison::Less), Some("side")), expected);
    assert_eq!(project_point(false, apart("out", Comparison::Equal), None), expected);
}

#[test]
fn point_beyond_the_radius_is_outside_solid_or_hollow() {
    let expected =
        Projection { is_inside: false, placement: Placement::Surface(Direction::Along("out")) };
    for solid in [true, false] {
        assert_eq!(project_point(solid, apart("out", Comparison::Greater), Some("side")), expected);
        assert_eq!(project_point(solid, apart("out", Comparison::Greater), None), expected);
    }
}

#[test]
fn point_at_an_unordered_distance_is_outside() {
    let expected =
        Projection { is_inside: false, placement: Placement::Surface(Direction::Along("out")) };
    for solid in [true, false] {
        assert_eq!(project_point(solid, apart("out", Comparison::Unordered), None), expected);
    }
}

#[test]
fn hollow_capsule_moves_a_point_on_the_axis_sideways() {
    let expected =
        Projection { is_inside: true, placement: Placement::Surface(Direction::Along("side")) };
    assert_eq!(project_point(false, None, Some("side")), expected);
}

#[test]
fn hollow_ball_moves_its_centre_along_the_reference() {
    let expected = Projection { is_inside: true, placement: Placement::Surface(Direction::Reference) };
    assert_eq!(project_point::<&str>(false, None, None), expected);
}

#[test]
fn inside_flag_does_not_depend_on_solidity() {
    for reading in READINGS {
        for perpendicular in [Some("side"), None] {
            let solid = project_point(true, apart("out", reading), perpendicular);
            let hollow = project_point(false, apart("out", reading), perpendicular);
            assert_eq!(solid.is_inside, hollow.is_inside);
            assert_eq!(
                solid.is_inside,
                reading == Comparison::Less || reading == Comparison::Equal
            );
        }
    }
}

#[test]
fn hollow_projection_always_lies_on_the_surface() {
    for perpendicular in [Some("side"), None] {
        assert!(matches!(project_point(false, None, perpendicular).placement, Placement::Surface(_)));
        for reading in READINGS {
            let p = project_point(false, apart("out", reading), perpendicular);
            assert_eq!(p.placement, Placement::Surface(Direction::Along("out")));
        }
    }
}

#[test]
fn project_point_with_feature_is_the_hollow_projection_on_face_zero() {
    for perpendicular in [Some("side"), None] {
        let (on_axis, feature) = project_point_with_feature(None, perpendicular);
        assert_eq!(on_axis, project_point(false, None, perpendicular));
        assert_eq!(feature, FeatureId::Face(0));
        for reading in READINGS {
            let (p, feature) = project_point_with_feature(apart("out", reading), perpendicular);
            assert_eq!(p, project_point(false, apart("out", reading), perpendicular));
            assert_eq!(feature, FeatureId::Face(0));
        }
    }
}

#[test]
fn ray_is_cast_in_the_local_frame() {
    let seen = Cell::new(0i32);
    let reported = toi_and_normal_with_ray(
        7i32,
        |ray| ray - 100,
        |local| {
            seen.set(local);
            Some((local * 2, "local normal"))
        },
        |(toi, _)| (toi, "world normal"),
    );
    assert_eq!(seen.get(), -93);
    assert_eq!(reported, Some((-186, "world normal")));
}

#[test]
fn ray_that_misses_reports_nothing() {
    let turned = Cell::new(false);
    let reported = toi_and_normal_with_ray(
        7i32,
        |ray| ray + 1,
        |_local| None::<i32>,
        |hit| {
            turned.set(true);
            hit
        },
    );
    assert_eq!(reported, None);
    assert!(!turned.get());
}
