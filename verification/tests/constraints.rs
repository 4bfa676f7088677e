use std::collections::HashSet;

use ezpz::constraints::{
    lemma_dependent_ids_are_associated, lemma_rows_cover_dependent_ids,
    lemma_rows_follow_residual_dim,
};
use ezpz::{
    AngleKind, CircleSide, Constraint, DatumCircle, DatumCircularArc, DatumDistance,
    DatumLineSegment, DatumPoint, Id, IdGenerator, LineSide,
};

type C = Constraint<f64, f64>;

#[test]
fn extend_dependent_variable_ids_reports_only_referenced_components() {
    let mut ids = IdGenerator::default();
    let p0 = DatumPoint::new(&mut ids);
    let p1 = DatumPoint::new(&mut ids);

    let horizontal = C::HorizontalDistance(p0, p1, 10.0);
    let mut horizontal_ids = Vec::with_capacity(2);
    horizontal.extend_dependent_variable_ids(&mut horizontal_ids);
    assert_eq!(horizontal_ids, vec![p0.id_x(), p1.id_x()]);

    let vertical = C::Vertical(DatumLineSegment::new(p0, p1));
    let mut vertical_ids = Vec::with_capacity(2);
    vertical.extend_dependent_variable_ids(&mut vertical_ids);
    assert_eq!(vertical_ids, vec![p0.id_x(), p1.id_x()]);
}

#[test]
fn extend_associated_variable_ids_reports_all_datum_components() {
    let mut ids = IdGenerator::default();
    let p0 = DatumPoint::new(&mut ids);
    let p1 = DatumPoint::new(&mut ids);

    let horizontal = C::HorizontalDistance(p0, p1, 10.0);
    let mut horizontal_ids = Vec::with_capacity(4);
    horizontal.extend_associated_variable_ids(&mut horizontal_ids);
    assert_eq!(
        horizontal_ids,
        vec![p0.id_x(), p0.id_y(), p1.id_x(), p1.id_y()]
    );

    let circle = DatumCircle {
        center: p0,
        radius: DatumDistance::new(ids.next_id()),
    };
    let mut circle_ids = Vec::with_capacity(3);
    C::CircleRadius(circle, 5.0).extend_associated_variable_ids(&mut circle_ids);
    assert_eq!(
        circle_ids,
        vec![circle.center.id_x(), circle.center.id_y(), circle.radius.id]
    );
}

#[test]
fn associated_and_dependent_variable_id_methods_accept_set_outputs() {
    let mut ids = IdGenerator::default();
    let arc = DatumCircularArc {
        center: DatumPoint::new(&mut ids),
        start: DatumPoint::new(&mut ids),
        end: DatumPoint::new(&mut ids),
    };
    let constraint = C::ArcRadius(arc, 5.0);

    let mut found = Vec::new();
    constraint.extend_dependent_variable_ids(&mut found);
    constraint.extend_associated_variable_ids(&mut found);
    let out: HashSet<Id> = found.into_iter().collect();

    assert_eq!(out.len(), 6);
    assert!(out.contains(&arc.center.id_x()));
    assert!(out.contains(&arc.center.id_y()));
    assert!(out.contains(&arc.start.id_x()));
    assert!(out.contains(&arc.start.id_y()));
    assert!(out.contains(&arc.end.id_x()));
    assert!(out.contains(&arc.end.id_y()));
}

fn sample_constraints() -> Vec<C> {
    let p = DatumPoint::new_xy(0, 1);
    let q = DatumPoint::new_xy(2, 3);
    let r = DatumPoint::new_xy(4, 5);
    let line = DatumLineSegment::new(p, q);
    let line2 = DatumLineSegment::new(q, r);
    let circle = DatumCircle { center: p, radius: DatumDistance::new(6) };
    let circle2 = DatumCircle { center: q, radius: DatumDistance::new(7) };
    let arc = DatumCircularArc { center: p, start: q, end: r };
    vec![
        C::LineTangentToCircle(line, circle2, LineSide::Left),
        C::CircleTangentToCircle(circle, circle2, CircleSide::Exterior),
        C::Distance(p, q, 1.0),
        C::DistanceVar(p, q, DatumDistance::new(6)),
        C::VerticalDistance(p, q, 1.0),
        C::HorizontalDistance(p, q, 1.0),
        C::Vertical(line),
        C::Horizontal(line),
        C::LinesAtAngle(line, line2, AngleKind::Perpendicular),
        C::Fixed(3, 2.0),
        C::ScalarEqual(6, 7),
        C::PointsCoincident(p, q),
        C::CircleRadius(circle, 1.0),
        C::LinesEqualLength(line, line2),
        C::ArcRadius(arc, 1.0),
        C::Arc(arc),
        C::Midpoint(line, r),
        C::PointLineDistance(r, line, 1.0),
        C::VerticalPointLineDistance(r, line, 1.0),
        C::HorizontalPointLineDistance(r, line, 1.0),
        C::Symmetric(line, r, DatumPoint::new_xy(8, 9)),
        C::PointArcCoincident(arc, DatumPoint::new_xy(8, 9)),
        C::ArcLength(arc, 1.0),
        C::ArcAngle(arc, 90.0),
        C::PointsAtAngle(p, q, r, AngleKind::Other(30.0)),
    ]
}

#[test]
fn residual_dim_counts_equations() {
    let dims: Vec<usize> = sample_constraints().iter().map(|c| c.residual_dim()).collect();
    assert_eq!(
        dims,
        vec![1, 1, 1, 1, 1, 1, 1, 1, 1, 1, 1, 2, 1, 1, 2, 1, 2, 1, 1, 1, 2, 2, 2, 1, 2]
    );
}

#[test]
fn rows_follow_residual_dim_on_every_kind() {
    for c in sample_constraints() {
        let (mut row0, mut row1, mut row2) = (Vec::new(), Vec::new(), vec![99]);
        c.nonzeroes(&mut row0, &mut row1, &mut row2);
        assert!(!row0.is_empty(), "{}", c.constraint_kind());
        assert_eq!(!row1.is_empty(), c.residual_dim() == 2, "{}", c.constraint_kind());
        assert_eq!(row2, vec![99]);
    }
    let _ = lemma_rows_follow_residual_dim::<f64, f64>;
}

#[test]
fn rows_cover_exactly_the_dependent_ids() {
    for c in sample_constraints() {
        let (mut row0, mut row1, mut row2) = (Vec::new(), Vec::new(), Vec::new());
        c.nonzeroes(&mut row0, &mut row1, &mut row2);
        let rows: HashSet<Id> = row0.into_iter().chain(row1).collect();
        let mut dep = Vec::new();
        c.extend_dependent_variable_ids(&mut dep);
        let dep: HashSet<Id> = dep.into_iter().collect();
        assert_eq!(rows, dep, "{}", c.constraint_kind());
    }
    let _ = lemma_rows_cover_dependent_ids::<f64, f64>;
}

#[test]
fn dependent_ids_are_associated_on_every_kind() {
    for c in sample_constraints() {
        let mut dep = Vec::new();
        c.extend_dependent_variable_ids(&mut dep);
        let mut assoc = Vec::new();
        c.extend_associated_variable_ids(&mut assoc);
        for id in dep {
            assert!(assoc.contains(&id), "{}", c.constraint_kind());
        }
    }
    let _ = lemma_dependent_ids_are_associated::<f64, f64>;
}

#[test]
fn extend_appends_after_existing_ids() {
    let p = DatumPoint::new_xy(10, 11);
    let q = DatumPoint::new_xy(12, 13);
    let mut out = vec![1, 2];
    C::VerticalDistance(p, q, 3.0).extend_dependent_variable_ids(&mut out);
    assert_eq!(out, vec![1, 2, 11, 13]);
    C::VerticalDistance(p, q, 3.0).extend_associated_variable_ids(&mut out);
    assert_eq!(out, vec![1, 2, 11, 13, 10, 11, 12, 13]);
}

#[test]
fn midpoint_ids_split_by_axis() {
    let line = DatumLineSegment::new(DatumPoint::new_xy(0, 1), DatumPoint::new_xy(2, 3));
    let c = C::Midpoint(line, DatumPoint::new_xy(4, 5));
    let mut dep = Vec::new();
    c.extend_dependent_variable_ids(&mut dep);
    assert_eq!(dep, vec![0, 2, 4, 1, 3, 5]);
    let (mut row0, mut row1, mut row2) = (Vec::new(), Vec::new(), Vec::new());
    c.nonzeroes(&mut row0, &mut row1, &mut row2);
    assert_eq!(row0, vec![0, 2, 4]);
    assert_eq!(row1, vec![1, 3, 5]);
    assert!(row2.is_empty());
}

#[test]
fn arc_radius_rows_are_two_distances() {
    let arc = DatumCircularArc {
        center: DatumPoint::new_xy(0, 1),
        start: DatumPoint::new_xy(2, 3),
        end: DatumPoint::new_xy(4, 5),
    };
    let (mut row0, mut row1, mut row2) = (Vec::new(), Vec::new(), Vec::new());
    C::ArcRadius(arc, 2.0).nonzeroes(&mut row0, &mut row1, &mut row2);
    assert_eq!(row0, vec![0, 1, 2, 3]);
    assert_eq!(row1, vec![0, 1, 4, 5]);
}

#[test]
fn arc_angle_rows_are_the_two_rays() {
    let arc = DatumCircularArc {
        center: DatumPoint::new_xy(0, 1),
        start: DatumPoint::new_xy(2, 3),
        end: DatumPoint::new_xy(4, 5),
    };
    let (mut row0, mut row1, mut row2) = (Vec::new(), Vec::new(), Vec::new());
    C::ArcAngle(arc, 45.0).nonzeroes(&mut row0, &mut row1, &mut row2);
    assert_eq!(row0, vec![0, 1, 2, 3, 0, 1, 4, 5]);
    assert!(row1.is_empty());
}

#[test]
fn points_coincident_rows() {
    let (mut row0, mut row1, mut row2) = (vec![7], Vec::new(), Vec::new());
    C::PointsCoincident(DatumPoint::new_xy(0, 1), DatumPoint::new_xy(2, 3))
        .nonzeroes(&mut row0, &mut row1, &mut row2);
    assert_eq!(row0, vec![7, 0, 2]);
    assert_eq!(row1, vec![1, 3]);
}

#[test]
fn constraint_kind_names_the_variant() {
    let names: Vec<&str> = sample_constraints().iter().map(|c| c.constraint_kind()).collect();
    assert_eq!(
        names,
        vec![
            "LineTangentToCircle",
            "CircleTangentToCircle",
            "Distance",
            "DistanceVar",
            "VerticalDistance",
            "HorizontalDistance",
            "Vertical",
            "Horizontal",
            "LinesAtAngle",
            "Fixed",
            "ScalarEqual",
            "PointsCoincident",
            "CircleRadius",
            "LinesEqualLength",
            "ArcRadius",
            "Arc",
            "Midpoint",
            "PointLineDistance",
            "VerticalPointLineDistance",
            "HorizontalPointLineDistance",
            "Symmetric",
            "PointArcCoincident",
            "ArcLength",
            "ArcAngle",
            "PointsAtAngle",
        ]
    );
}

#[test]
fn resolve_undefined_line_side() {
    let line = DatumLineSegment::new(DatumPoint::new_xy(0, 1), DatumPoint::new_xy(2, 3));
    let circle = DatumCircle { center: DatumPoint::new_xy(4, 5), radius: DatumDistance::new(6) };
    let mut c = C::LineTangentToCircle(line, circle, LineSide::Undefined);
    c.resolve_undefined_sides(|l, centre| l.p0.id_x() == 0 && centre.id_x() == 4, |_, _| true);
    assert!(matches!(c, C::LineTangentToCircle(_, _, LineSide::Left)));

    let mut c = C::LineTangentToCircle(line, circle, LineSide::Undefined);
    c.resolve_undefined_sides(|_, _| false, |_, _| true);
    assert!(matches!(c, C::LineTangentToCircle(_, _, LineSide::Right)));

    // A side already given is kept.
    let mut c = C::LineTangentToCircle(line, circle, LineSide::Right);
    c.resolve_undefined_sides(|_, _| true, |_, _| true);
    assert!(matches!(c, C::LineTangentToCircle(_, _, LineSide::Right)));
}

#[test]
fn resolve_undefined_circle_side() {
    let a = DatumCircle { center: DatumPoint::new_xy(0, 1), radius: DatumDistance::new(2) };
    let b = DatumCircle { center: DatumPoint::new_xy(3, 4), radius: DatumDistance::new(5) };
    let mut c = C::CircleTangentToCircle(a, b, CircleSide::Undefined);
    c.resolve_undefined_sides(|_, _| true, |x, y| x.radius.id == 2 && y.radius.id == 5);
    assert!(matches!(c, C::CircleTangentToCircle(_, _, CircleSide::Interior)));

    let mut c = C::CircleTangentToCircle(a, b, CircleSide::Undefined);
    c.resolve_undefined_sides(|_, _| true, |_, _| false);
    assert!(matches!(c, C::CircleTangentToCircle(_, _, CircleSide::Exterior)));

    let mut c = C::CircleTangentToCircle(a, b, CircleSide::Exterior);
    c.resolve_undefined_sides(|_, _| true, |_, _| true);
    assert!(matches!(c, C::CircleTangentToCircle(_, _, CircleSide::Exterior)));
}

#[test]
fn resolve_leaves_other_constraints_alone() {
    let mut c = C::Fixed(3, 2.5);
    c.resolve_undefined_sides(|_, _| true, |_, _| true);
    assert!(matches!(c, C::Fixed(3, v) if v == 2.5));
}
