//! Each kind of constraint we support, and which variables each one involves.
use vstd::prelude::*;

use crate::datum::{
    push_all, AngleKind, DatumCircle, DatumCircularArc, DatumDistance, DatumLineSegment,
    DatumPoint, Id,
};

verus! {

/// Which side of a directed line a constraint refers to.
#[derive(Clone, Copy, Debug, PartialEq, Eq, Structural)]
#[non_exhaustive]
pub enum LineSide {
    /// Infer the side from the initial conditions before solving.
    Undefined,
    /// The left-hand side of the line when travelling from `p0` to `p1`.
    Left,
    /// The right-hand side of the line when travelling from `p0` to `p1`.
    Right,
}

/// Which side of a circle a constraint refers to.
#[derive(Clone, Copy, Debug, PartialEq, Eq, Structural)]
#[non_exhaustive]
pub enum CircleSide {
    /// Infer the side from the initial conditions before solving.
    Undefined,
    /// Exterior of a circle
    Exterior,
    /// Interior of a circle
    Interior,
}

/// Each geometric constraint we support.
///
/// `S` is the type of a scalar target (a distance, a radius, a fixed value),
/// `A` the type of a target angle.
#[derive(Clone, Copy, Debug)]
pub enum Constraint<S, A> {
    /// This line must be tangent to the circle
    /// (i.e. touches its perimeter in exactly one place)
    LineTangentToCircle(DatumLineSegment, DatumCircle, LineSide),
    /// These two circles should be tangent.
    /// This could include internal tangency (where one circle is inside the other),
    /// or external (where they're adjacent).
    CircleTangentToCircle(DatumCircle, DatumCircle, CircleSide),
    /// These two points should be a given distance apart.
    Distance(DatumPoint, DatumPoint, S),
    /// These two points should have distance equal to the given variable.
    DistanceVar(DatumPoint, DatumPoint, DatumDistance),
    /// These two points should be a given vertical distance apart.
    VerticalDistance(DatumPoint, DatumPoint, S),
    /// These two points should be a given horizontal distance apart.
    HorizontalDistance(DatumPoint, DatumPoint, S),
    /// These two points have the same Y value.
    Vertical(DatumLineSegment),
    /// These two points have the same X value.
    Horizontal(DatumLineSegment),
    /// These lines meet at this angle.
    LinesAtAngle(DatumLineSegment, DatumLineSegment, AngleKind<A>),
    /// Some scalar value is fixed.
    Fixed(Id, S),
    /// These two scalar values are the same.
    /// E.g. set two circles to have the same radius.
    ScalarEqual(Id, Id),
    /// These two points must coincide.
    PointsCoincident(DatumPoint, DatumPoint),
    /// Constraint radius of a circle
    CircleRadius(DatumCircle, S),
    /// These lines should be the same distance.
    LinesEqualLength(DatumLineSegment, DatumLineSegment),
    /// The arc should have the given radius.
    ArcRadius(DatumCircularArc, S),
    /// These 3 points should form an arc,
    /// i.e. `a` and `b` should be equidistant from `center`.
    Arc(DatumCircularArc),
    /// The given point should be the midpoint along the given line.
    Midpoint(DatumLineSegment, DatumPoint),
    /// The given point should be the given (perpendicular, i.e. minimum Euclidean) distance away from the line.
    PointLineDistance(DatumPoint, DatumLineSegment, S),
    /// The given point should be the given (vertical) distance away from the line.
    VerticalPointLineDistance(DatumPoint, DatumLineSegment, S),
    /// The given point should be the given (horizontal) distance away from the line.
    HorizontalPointLineDistance(DatumPoint, DatumLineSegment, S),
    /// These two points should be symmetric across the given line.
    Symmetric(DatumLineSegment, DatumPoint, DatumPoint),
    /// This point should lie on this arc.
    PointArcCoincident(DatumCircularArc, DatumPoint),
    /// The arc should have this length.
    ArcLength(DatumCircularArc, S),
    /// The arc should span this angle.
    ArcAngle(DatumCircularArc, A),
    /// The oriented angle from (p1 - p0) to (p2 - p0) should equal the given angle.
    PointsAtAngle(DatumPoint, DatumPoint, DatumPoint, AngleKind<A>),
}

/// The segment from an arc's centre to its start.
pub open spec fn arc_start_ray(arc: DatumCircularArc) -> DatumLineSegment {
    DatumLineSegment { p0: arc.center, p1: arc.start }
}

/// The segment from an arc's centre to its end.
pub open spec fn arc_end_ray(arc: DatumCircularArc) -> DatumLineSegment {
    DatumLineSegment { p0: arc.center, p1: arc.end }
}

impl<S, A> Constraint<S, A> {
    /// How many residual equations the constraint contributes.
    pub open spec fn spec_residual_dim(self) -> nat {
        match self {
            Constraint::PointsCoincident(..) => 2,
            Constraint::ArcRadius(..) => 2,
            Constraint::Midpoint(..) => 2,
            Constraint::Symmetric(..) => 2,
            Constraint::PointArcCoincident(..) => 2,
            Constraint::ArcLength(..) => 2,
            Constraint::PointsAtAngle(..) => 2,
            _ => 1,
        }
    }

    /// The variables the constraint's residual depends on, in the order
    /// `extend_dependent_variable_ids` emits them.
    pub open spec fn dependent_ids(self) -> Seq<Id> {
        match self {
            Constraint::LineTangentToCircle(line, circle, _) => line.vars() + circle.vars(),
            Constraint::CircleTangentToCircle(c0, c1, _) => c0.vars() + c1.vars(),
            Constraint::Distance(p0, p1, _) => p0.vars() + p1.vars(),
            Constraint::DistanceVar(p0, p1, d) => p0.vars() + p1.vars() + d.vars(),
            Constraint::VerticalDistance(p0, p1, _) => seq![p0.y_id, p1.y_id],
            Constraint::HorizontalDistance(p0, p1, _) => seq![p0.x_id, p1.x_id],
            Constraint::Vertical(line) => seq![line.p0.x_id, line.p1.x_id],
            Constraint::Horizontal(line) => seq![line.p0.y_id, line.p1.y_id],
            Constraint::LinesAtAngle(l0, l1, _) => l0.vars() + l1.vars(),
            Constraint::Fixed(id, _) => seq![id],
            Constraint::ScalarEqual(x, y) => seq![x, y],
            Constraint::PointsCoincident(p0, p1) => p0.vars() + p1.vars(),
            Constraint::CircleRadius(circle, _) => seq![circle.radius.id],
            Constraint::LinesEqualLength(l0, l1) => l0.vars() + l1.vars(),
            Constraint::ArcRadius(arc, _) => arc.vars(),
            Constraint::Arc(arc) => arc.vars(),
            Constraint::Midpoint(line, point) => seq![
                line.p0.x_id,
                line.p1.x_id,
                point.x_id,
                line.p0.y_id,
                line.p1.y_id,
                point.y_id,
            ],
            Constraint::PointLineDistance(point, line, _) => point.vars() + line.vars(),
            Constraint::VerticalPointLineDistance(point, line, _) => line.vars() + point.vars(),
            Constraint::HorizontalPointLineDistance(point, line, _) => line.vars() + point.vars(),
            Constraint::Symmetric(line, a, b) => line.vars() + a.vars() + b.vars(),
            Constraint::PointArcCoincident(arc, point) => arc.vars() + point.vars(),
            Constraint::ArcLength(arc, _) => arc.vars(),
            Constraint::ArcAngle(arc, _) => arc.vars(),
            Constraint::PointsAtAngle(p0, p1, p2, _) => p0.vars() + p1.vars() + p2.vars(),
        }
    }

    /// Every variable of every datum the constraint mentions, in the order
    /// `extend_associated_variable_ids` emits them.
    pub open spec fn associated_ids(self) -> Seq<Id> {
        match self {
            Constraint::VerticalDistance(p0, p1, _) => p0.vars() + p1.vars(),
            Constraint::HorizontalDistance(p0, p1, _) => p0.vars() + p1.vars(),
            Constraint::Vertical(line) => line.vars(),
            Constraint::Horizontal(line) => line.vars(),
            Constraint::CircleRadius(circle, _) => circle.vars(),
            Constraint::Midpoint(line, point) => line.vars() + point.vars(),
            _ => self.dependent_ids(),
        }
    }

    /// Every variable of every datum the constraint mentions, datum by
    /// datum in the order of the variant's fields (a bare variable counts as
    /// a datum of its own).
    pub open spec fn mentioned_vars(self) -> Seq<Id> {
        match self {
            Constraint::LineTangentToCircle(line, circle, _) => line.vars() + circle.vars(),
            Constraint::CircleTangentToCircle(c0, c1, _) => c0.vars() + c1.vars(),
            Constraint::Distance(p0, p1, _) => p0.vars() + p1.vars(),
            Constraint::DistanceVar(p0, p1, d) => p0.vars() + p1.vars() + d.vars(),
            Constraint::VerticalDistance(p0, p1, _) => p0.vars() + p1.vars(),
            Constraint::HorizontalDistance(p0, p1, _) => p0.vars() + p1.vars(),
            Constraint::Vertical(line) => line.vars(),
            Constraint::Horizontal(line) => line.vars(),
            Constraint::LinesAtAngle(l0, l1, _) => l0.vars() + l1.vars(),
            Constraint::Fixed(id, _) => seq![id],
            Constraint::ScalarEqual(x, y) => seq![x] + seq![y],
            Constraint::PointsCoincident(p0, p1) => p0.vars() + p1.vars(),
            Constraint::CircleRadius(circle, _) => circle.vars(),
            Constraint::LinesEqualLength(l0, l1) => l0.vars() + l1.vars(),
            Constraint::ArcRadius(arc, _) => arc.vars(),
            Constraint::Arc(arc) => arc.vars(),
            Constraint::Midpoint(line, point) => line.vars() + point.vars(),
            Constraint::PointLineDistance(point, line, _) => point.vars() + line.vars(),
            Constraint::VerticalPointLineDistance(point, line, _) => point.vars() + line.vars(),
            Constraint::HorizontalPointLineDistance(point, line, _) => point.vars() + line.vars(),
            Constraint::Symmetric(line, a, b) => line.vars() + a.vars() + b.vars(),
            Constraint::PointArcCoincident(arc, point) => arc.vars() + point.vars(),
            Constraint::ArcLength(arc, _) => arc.vars(),
            Constraint::ArcAngle(arc, _) => arc.vars(),
            Constraint::PointsAtAngle(p0, p1, p2, _) => p0.vars() + p1.vars() + p2.vars(),
        }
    }

    /// The constraints whose residual reads only part of their datums: one
    /// coordinate of each point, or only a circle's radius.
    pub open spec fn reads_part_of_datums(self) -> bool {
        match self {
            Constraint::VerticalDistance(..) => true,
            Constraint::HorizontalDistance(..) => true,
            Constraint::Vertical(..) => true,
            Constraint::Horizontal(..) => true,
            Constraint::CircleRadius(..) => true,
            _ => false,
        }
    }

    /// The two-equation constraints whose equations each read only part of
    /// the variables: one per axis, or one distance per end of an arc.
    pub open spec fn splits_rows(self) -> bool {
        match self {
            Constraint::PointsCoincident(..) => true,
            Constraint::Midpoint(..) => true,
            Constraint::ArcRadius(..) => true,
            _ => false,
        }
    }

    /// The variables of the first and of the second Jacobian row, in the
    /// order `nonzeroes` appends them.
    pub open spec fn nonzero_rows(self) -> (Seq<Id>, Seq<Id>) {
        match self {
            Constraint::PointsCoincident(p0, p1) => (
                seq![p0.x_id, p1.x_id],
                seq![p0.y_id, p1.y_id],
            ),
            Constraint::ArcRadius(arc, _) => (
                arc.center.vars() + arc.start.vars(),
                arc.center.vars() + arc.end.vars(),
            ),
            Constraint::Midpoint(line, point) => (
                seq![line.p0.x_id, line.p1.x_id, point.x_id],
                seq![line.p0.y_id, line.p1.y_id, point.y_id],
            ),
            Constraint::Symmetric(..) => (self.dependent_ids(), self.dependent_ids()),
            Constraint::PointArcCoincident(..) => (self.dependent_ids(), self.dependent_ids()),
            Constraint::ArcLength(..) => (self.dependent_ids(), self.dependent_ids()),
            Constraint::ArcAngle(arc, _) => (
                arc_start_ray(arc).vars() + arc_end_ray(arc).vars(),
                Seq::empty(),
            ),
            Constraint::PointsAtAngle(..) => (self.dependent_ids(), self.dependent_ids()),
            _ => (self.dependent_ids(), Seq::empty()),
        }
    }

    /// The constraint's human-readable name: its variant's name.
    pub open spec fn kind_name(self) -> Seq<char> {
        match self {
            Constraint::LineTangentToCircle(..) => "LineTangentToCircle"@,
            Constraint::CircleTangentToCircle(..) => "CircleTangentToCircle"@,
            Constraint::Distance(..) => "Distance"@,
            Constraint::DistanceVar(..) => "DistanceVar"@,
            Constraint::VerticalDistance(..) => "VerticalDistance"@,
            Constraint::HorizontalDistance(..) => "HorizontalDistance"@,
            Constraint::Vertical(..) => "Vertical"@,
            Constraint::Horizontal(..) => "Horizontal"@,
            Constraint::Fixed(..) => "Fixed"@,
            Constraint::LinesAtAngle(..) => "LinesAtAngle"@,
            Constraint::PointsCoincident(..) => "PointsCoincident"@,
            Constraint::CircleRadius(..) => "CircleRadius"@,
            Constraint::LinesEqualLength(..) => "LinesEqualLength"@,
            Constraint::ArcRadius(..) => "ArcRadius"@,
            Constraint::Arc(..) => "Arc"@,
            Constraint::Midpoint(..) => "Midpoint"@,
            Constraint::PointLineDistance(..) => "PointLineDistance"@,
            Constraint::VerticalPointLineDistance(..) => "VerticalPointLineDistance"@,
            Constraint::HorizontalPointLineDistance(..) => "HorizontalPointLineDistance"@,
            Constraint::Symmetric(..) => "Symmetric"@,
            Constraint::ScalarEqual(..) => "ScalarEqual"@,
            Constraint::PointArcCoincident(..) => "PointArcCoincident"@,
            Constraint::ArcLength(..) => "ArcLength"@,
            Constraint::ArcAngle(..) => "ArcAngle"@,
            Constraint::PointsAtAngle(..) => "PointsAtAngle"@,
        }
    }

    /// True when the constraint still carries a side to be inferred.
    pub open spec fn has_undefined_side(self) -> bool {
        match self {
            Constraint::LineTangentToCircle(_, _, side) => side == LineSide::Undefined,
            Constraint::CircleTangentToCircle(_, _, side) => side == CircleSide::Undefined,
            _ => false,
        }
    }

    /// Extend `out` with the primitive variable IDs that this constraint's
    /// residual equations depend on.
    ///
    /// "Dependent" means changing one of the emitted IDs can change this
    /// constraint's residual value. This is intentionally narrower than
    /// [`Constraint::extend_associated_variable_ids`], which reports every ID
    /// structurally present inside the attached geometry. For example,
    /// [`Constraint::HorizontalDistance`] only emits the two X-component IDs
    /// because its residual does not depend on either point's Y component, and
    /// [`Constraint::CircleRadius`] only emits the radius ID.
    pub fn extend_dependent_variable_ids(&self, out: &mut Vec<Id>)
        ensures
            final(out)@ == old(out)@ + self.dependent_ids(),
    {
        match self {
            Constraint::LineTangentToCircle(line, circle, _side) => {
                push_all(out, &line.all_variables());
                push_all(out, &circle.all_variables());
            },
            Constraint::CircleTangentToCircle(circle0, circle1, _side) => {
                push_all(out, &circle0.all_variables());
                push_all(out, &circle1.all_variables());
            },
            Constraint::Distance(p0, p1, _dist) => {
                push_all(out, &p0.all_variables());
                push_all(out, &p1.all_variables());
            },
            Constraint::DistanceVar(p0, p1, d) => {
                push_all(out, &p0.all_variables());
                push_all(out, &p1.all_variables());
                push_all(out, &d.all_variables());
            },
            Constraint::VerticalDistance(p0, p1, _dist) => push_all(out, &[p0.id_y(), p1.id_y()]),
            Constraint::HorizontalDistance(p0, p1, _dist) => push_all(out, &[p0.id_x(), p1.id_x()]),
            Constraint::Vertical(line) => push_all(out, &[line.p0.id_x(), line.p1.id_x()]),
            Constraint::Horizontal(line) => push_all(out, &[line.p0.id_y(), line.p1.id_y()]),
            Constraint::LinesAtAngle(line0, line1, _angle) => {
                push_all(out, &line0.all_variables());
                push_all(out, &line1.all_variables());
            },
            Constraint::Fixed(id, _scalar) => push_all(out, &[*id]),
            Constraint::ScalarEqual(x, y) => push_all(out, &[*x, *y]),
            Constraint::PointsCoincident(p0, p1) => {
                push_all(out, &p0.all_variables());
                push_all(out, &p1.all_variables());
            },
            Constraint::CircleRadius(circle, _radius) => push_all(out, &[circle.radius.id]),
            Constraint::LinesEqualLength(line0, line1) => {
                push_all(out, &line0.all_variables());
                push_all(out, &line1.all_variables());
            },
            Constraint::ArcRadius(arc, _radius) => push_all(out, &arc.all_variables()),
            Constraint::Arc(arc) => push_all(out, &arc.all_variables()),
            Constraint::Midpoint(line, point) => {
                push_all(out, &[line.p0.id_x(), line.p1.id_x(), point.id_x()]);
                push_all(out, &[line.p0.id_y(), line.p1.id_y(), point.id_y()]);
            },
            Constraint::PointLineDistance(point, line, _distance) => {
                push_all(out, &point.all_variables());
                push_all(out, &line.all_variables());
            },
            Constraint::VerticalPointLineDistance(point, line, _distance) => {
                push_all(out, &line.all_variables());
                push_all(out, &point.all_variables());
            },
            Constraint::HorizontalPointLineDistance(point, line, _distance) => {
                push_all(out, &line.all_variables());
                push_all(out, &point.all_variables());
            },
            Constraint::Symmetric(line, a, b) => {
                push_all(out, &line.all_variables());
                push_all(out, &a.all_variables());
                push_all(out, &b.all_variables());
            },
            Constraint::PointArcCoincident(circular_arc, point) => {
                push_all(out, &circular_arc.all_variables());
                push_all(out, &point.all_variables());
            },
            Constraint::ArcLength(circular_arc, _dist) => push_all(out, &circular_arc.all_variables()),
            Constraint::ArcAngle(circular_arc, _angle) => push_all(out, &circular_arc.all_variables()),
            Constraint::PointsAtAngle(p0, p1, p2, _angle) => {
                push_all(out, &p0.all_variables());
                push_all(out, &p1.all_variables());
                push_all(out, &p2.all_variables());
            },
        }
    }

    /// Extend `out` with the primitive variable IDs associated with the
    /// geometry attached to this constraint.
    ///
    /// "Associated" means every variable ID belonging to the datums mentioned
    /// by this constraint, even if some of those IDs do not affect the residual
    /// directly. This is intentionally broader than
    /// [`Constraint::extend_dependent_variable_ids`], which only reports IDs
    /// that can change the residual itself. For example,
    /// [`Constraint::HorizontalDistance`] emits both points' X and Y IDs
    /// because both full points are associated with the constraint, and
    /// [`Constraint::CircleRadius`] emits the circle center IDs as well as the
    /// radius ID because all three belong to the associated circle datum.
    pub fn extend_associated_variable_ids(&self, out: &mut Vec<Id>)
        ensures
            final(out)@ == old(out)@ + self.associated_ids(),
    {
        match self {
            Constraint::VerticalDistance(p0, p1, _dist)
            | Constraint::HorizontalDistance(p0, p1, _dist) => {
                push_all(out, &p0.all_variables());
                push_all(out, &p1.all_variables());
            },
            Constraint::Vertical(line) | Constraint::Horizontal(line) => {
                push_all(out, &line.all_variables());
            },
            Constraint::CircleRadius(circle, _radius) => push_all(out, &circle.all_variables()),
            Constraint::Midpoint(line, point) => {
                push_all(out, &line.all_variables());
                push_all(out, &point.all_variables());
            },
            // Every other constraint's residual depends on all of its datums.
            _ => self.extend_dependent_variable_ids(out),
        }
    }

    /// For each row of the Jacobian matrix, which variables are involved in them?
    pub fn nonzeroes(&self, row0: &mut Vec<Id>, row1: &mut Vec<Id>, row2: &mut Vec<Id>)
        ensures
            final(row0)@ == old(row0)@ + self.nonzero_rows().0,
            final(row1)@ == old(row1)@ + self.nonzero_rows().1,
            final(row2)@ == old(row2)@,
    {
        match self {
            Constraint::PointsCoincident(p0, p1) => {
                row0.push(p0.id_x());
                row0.push(p1.id_x());
                row1.push(p0.id_y());
                row1.push(p1.id_y());
            },
            Constraint::ArcRadius(arc, _radius) => {
                // This is really just equivalent to 2 constraints,
                // distance(center, start) and distance(center, end),
                // one per row.
                push_all(row0, &arc.center.all_variables());
                push_all(row0, &arc.start.all_variables());
                push_all(row1, &arc.center.all_variables());
                push_all(row1, &arc.end.all_variables());
            },
            Constraint::Midpoint(line, point) => {
                push_all(row0, &[line.p0.id_x(), line.p1.id_x(), point.id_x()]);
                push_all(row1, &[line.p0.id_y(), line.p1.id_y(), point.id_y()]);
            },
            Constraint::Symmetric(..)
            | Constraint::PointArcCoincident(..)
            | Constraint::ArcLength(..)
            | Constraint::PointsAtAngle(..) => {
                // Both residuals depend on every variable.
                self.extend_dependent_variable_ids(row0);
                self.extend_dependent_variable_ids(row1);
            },
            Constraint::ArcAngle(circular_arc, _angle) => {
                // The angle between the rays from the centre to the start
                // and from the centre to the end.
                let start_ray = DatumLineSegment::new(circular_arc.center, circular_arc.start);
                let end_ray = DatumLineSegment::new(circular_arc.center, circular_arc.end);
                push_all(row0, &start_ray.all_variables());
                push_all(row0, &end_ray.all_variables());
            },
            _ => self.extend_dependent_variable_ids(row0),
        }
    }

    /// Human-readable constraint name, useful for debugging.
    pub fn constraint_kind(&self) -> (name: &'static str)
        ensures
            name@ == self.kind_name(),
    {
        match self {
            Constraint::LineTangentToCircle(..) => "LineTangentToCircle",
            Constraint::CircleTangentToCircle(..) => "CircleTangentToCircle",
            Constraint::Distance(..) => "Distance",
            Constraint::DistanceVar(..) => "DistanceVar",
            Constraint::VerticalDistance(..) => "VerticalDistance",
            Constraint::HorizontalDistance(..) => "HorizontalDistance",
            Constraint::Vertical(..) => "Vertical",
            Constraint::Horizontal(..) => "Horizontal",
            Constraint::Fixed(..) => "Fixed",
            Constraint::LinesAtAngle(..) => "LinesAtAngle",
            Constraint::PointsCoincident(..) => "PointsCoincident",
            Constraint::CircleRadius(..) => "CircleRadius",
            Constraint::LinesEqualLength(..) => "LinesEqualLength",
            Constraint::ArcRadius(..) => "ArcRadius",
            Constraint::Arc(..) => "Arc",
            Constraint::Midpoint(..) => "Midpoint",
            Constraint::PointLineDistance(..) => "PointLineDistance",
            Constraint::VerticalPointLineDistance(..) => "VerticalPointLineDistance",
            Constraint::HorizontalPointLineDistance(..) => "HorizontalPointLineDistance",
            Constraint::Symmetric(..) => "Symmetric",
            Constraint::ScalarEqual(..) => "ScalarEqual",
            Constraint::PointArcCoincident(..) => "PointArcCoincident",
            Constraint::ArcLength(..) => "ArcLength",
            Constraint::ArcAngle(..) => "ArcAngle",
            Constraint::PointsAtAngle(..) => "PointsAtAngle",
        }
    }

    /// Infers any side that is still `Undefined` from the initial
    /// geometry, which the two closures judge: `centre_on_left(line, centre)`
    /// tells whether the circle's centre lies on the left of the directed
    /// line, `interior_closer(a, b)` whether the circles are closer to
    /// internal than to external tangency. Every other constraint, and every
    /// side already given, is left as it is.
    pub fn resolve_undefined_sides<F, G>(&mut self, centre_on_left: F, interior_closer: G)
        where
            F: Fn(DatumLineSegment, DatumPoint) -> bool,
            G: Fn(DatumCircle, DatumCircle) -> bool,
        requires
            forall|line: DatumLineSegment, centre: DatumPoint|
                call_requires(centre_on_left, (line, centre)),
            forall|a: DatumCircle, b: DatumCircle| call_requires(interior_closer, (a, b)),
        ensures
            !final(self).has_undefined_side(),
            match *old(self) {
                Constraint::LineTangentToCircle(line, circle, LineSide::Undefined) => exists|left: bool|
                    {
                        &&& call_ensures(centre_on_left, (line, circle.center), left)
                        &&& *final(self) == Constraint::<S, A>::LineTangentToCircle(
                            line,
                            circle,
                            if left {
                                LineSide::Left
                            } else {
                                LineSide::Right
                            },
                        )
                    },
                Constraint::CircleTangentToCircle(a, b, CircleSide::Undefined) => exists|interior: bool|
                    {
                        &&& call_ensures(interior_closer, (a, b), interior)
                        &&& *final(self) == Constraint::<S, A>::CircleTangentToCircle(
                            a,
                            b,
                            if interior {
                                CircleSide::Interior
                            } else {
                                CircleSide::Exterior
                            },
                        )
                    },
                _ => *final(self) == *old(self),
            },
    {
        match self {
            Constraint::LineTangentToCircle(line, circle, side) => {
                if *side == LineSide::Undefined {
                    let left = centre_on_left(*line, circle.center);
                    *side = if left {
                        LineSide::Left
                    } else {
                        LineSide::Right
                    };
                }
            },
            Constraint::CircleTangentToCircle(circle_a, circle_b, side) => {
                if *side == CircleSide::Undefined {
                    let interior = interior_closer(*circle_a, *circle_b);
                    *side = if interior {
                        CircleSide::Interior
                    } else {
                        CircleSide::Exterior
                    };
                }
            },
            _ => {},
        }
    }

    /// How many equations does this constraint correspond to?
    /// Each equation is a residual function (a measure of error)
    pub fn residual_dim(&self) -> (n: usize)
        ensures
            n == self.spec_residual_dim(),
            1 <= n <= 2,
    {
        match self {
            Constraint::LineTangentToCircle(..) => 1,
            Constraint::CircleTangentToCircle(..) => 1,
            Constraint::Distance(..) => 1,
            Constraint::DistanceVar(..) => 1,
            Constraint::VerticalDistance(..) => 1,
            Constraint::HorizontalDistance(..) => 1,
            Constraint::Vertical(..) => 1,
            Constraint::Horizontal(..) => 1,
            Constraint::Fixed(..) => 1,
            Constraint::ScalarEqual(_, _) => 1,
            Constraint::LinesAtAngle(..) => 1,
            Constraint::PointsCoincident(..) => 2,
            Constraint::CircleRadius(..) => 1,
            Constraint::LinesEqualLength(..) => 1,
            Constraint::ArcRadius(..) => 2,
            Constraint::Arc(..) => 1,
            Constraint::Midpoint(..) => 2,
            Constraint::PointLineDistance(..) => 1,
            Constraint::VerticalPointLineDistance(..) => 1,
            Constraint::HorizontalPointLineDistance(..) => 1,
            Constraint::Symmetric(..) => 2,
            Constraint::PointArcCoincident(..) => 2,
            Constraint::ArcLength(..) => 2,
            // An arc angle is the angle between the rays from the centre to
            // both ends, a single lines-at-angle equation.
            Constraint::ArcAngle(..) => 1,
            Constraint::PointsAtAngle(..) => 2,
        }
    }
}

/// Each element of `s` is an element of `t`.
pub open spec fn seq_within<T>(s: Seq<T>, t: Seq<T>) -> bool {
    forall|i: int| 0 <= i < s.len() ==> t.contains(#[trigger] s[i])
}

/// Every constraint contributes one or two residual equations, and its
/// Jacobian sparsity pattern fills exactly that many rows: the first row
/// always, the second exactly when there are two equations.
pub proof fn lemma_rows_follow_residual_dim<S, A>(c: Constraint<S, A>)
    ensures
        1 <= c.spec_residual_dim() <= 2,
        c.nonzero_rows().0.len() > 0,
        c.nonzero_rows().1.len() > 0 <==> c.spec_residual_dim() == 2,
{
}

/// The variables a constraint's residual depends on are among the
/// variables associated with its datums.
pub proof fn lemma_dependent_ids_are_associated<S, A>(c: Constraint<S, A>)
    ensures
        seq_within(c.dependent_ids(), c.associated_ids()),
{
    assert forall|i: int| 0 <= i < c.dependent_ids().len() implies c.associated_ids().contains(
        #[trigger] c.dependent_ids()[i],
    ) by {
        let dep = c.dependent_ids();
        let assoc = c.associated_ids();
        match c {
            Constraint::Midpoint(line, point) => {
                let k: int = if i == 0 { 0 } else if i == 1 { 2 } else if i == 2 { 4 }
                    else if i == 3 { 1 } else if i == 4 { 3 } else { 5 };
                assert(assoc[k] == dep[i]);
            },
            Constraint::VerticalDistance(p0, p1, _) => {
                let k: int = if i == 0 { 1 } else { 3 };
                assert(assoc[k] == dep[i]);
            },
            Constraint::HorizontalDistance(p0, p1, _) => {
                let k: int = if i == 0 { 0 } else { 2 };
                assert(assoc[k] == dep[i]);
            },
            Constraint::Vertical(line) => {
                let k: int = if i == 0 { 0 } else { 2 };
                assert(assoc[k] == dep[i]);
            },
            Constraint::Horizontal(line) => {
                let k: int = if i == 0 { 1 } else { 3 };
                assert(assoc[k] == dep[i]);
            },
            Constraint::CircleRadius(circle, _) => {
                assert(assoc[2] == dep[i]);
            },
            _ => {
                assert(assoc[i] == dep[i]);
            },
        }
    }
}

/// The Jacobian sparsity pattern of a constraint names exactly the
/// variables its residual depends on: every variable in either row is a
/// dependent variable, and every dependent variable appears in some row.
pub proof fn lemma_rows_cover_dependent_ids<S, A>(c: Constraint<S, A>)
    ensures
        seq_within(c.nonzero_rows().0 + c.nonzero_rows().1, c.dependent_ids()),
        seq_within(c.dependent_ids(), c.nonzero_rows().0 + c.nonzero_rows().1),
{
    let rows = c.nonzero_rows().0 + c.nonzero_rows().1;
    let dep = c.dependent_ids();
    assert forall|i: int| 0 <= i < rows.len() implies dep.contains(#[trigger] rows[i]) by {
        match c {
            Constraint::PointsCoincident(..) => {
                let k: int = if i == 0 { 0 } else if i == 1 { 2 } else if i == 2 { 1 } else { 3 };
                assert(dep[k] == rows[i]);
            },
            Constraint::ArcRadius(..) => {
                let k: int = if i < 4 { i } else if i < 6 { i - 4 } else { i - 2 };
                assert(dep[k] == rows[i]);
            },
            Constraint::Midpoint(..) => {
                assert(dep[i] == rows[i]);
            },
            Constraint::ArcAngle(..) => {
                let k: int = if i < 4 { i } else if i < 6 { i - 4 } else { i - 2 };
                assert(dep[k] == rows[i]);
            },
            Constraint::Symmetric(..)
            | Constraint::PointArcCoincident(..)
            | Constraint::ArcLength(..)
            | Constraint::PointsAtAngle(..) => {
                let k: int = if i < dep.len() { i } else { i - dep.len() };
                assert(dep[k] == rows[i]);
            },
            _ => {
                assert(dep[i] == rows[i]);
            },
        }
    }
    assert forall|i: int| 0 <= i < dep.len() implies rows.contains(#[trigger] dep[i]) by {
        match c {
            Constraint::PointsCoincident(..) => {
                let k: int = if i == 0 { 0 } else if i == 1 { 2 } else if i == 2 { 1 } else { 3 };
                assert(rows[k] == dep[i]);
            },
            Constraint::ArcRadius(..) => {
                let k: int = if i < 4 { i } else { i + 2 };
                assert(rows[k] == dep[i]);
            },
            Constraint::ArcAngle(..) => {
                let k: int = if i < 4 { i } else { i + 2 };
                assert(rows[k] == dep[i]);
            },
            _ => {
                assert(rows[i] == dep[i]);
            },
        }
    }
}

/// An arc radius is two distance constraints, from the centre to the start
/// and from the centre to the end: it has their two equations, one Jacobian
/// row each, and depends on the variables of both.
pub proof fn lemma_arc_radius_is_two_distances<S, A>(arc: DatumCircularArc, radius: S)
    ensures
        ({
            let c = Constraint::<S, A>::ArcRadius(arc, radius);
            let to_start = Constraint::<S, A>::Distance(arc.center, arc.start, radius);
            let to_end = Constraint::<S, A>::Distance(arc.center, arc.end, radius);
            &&& c.spec_residual_dim() == to_start.spec_residual_dim() + to_end.spec_residual_dim()
            &&& c.nonzero_rows().0 == to_start.nonzero_rows().0
            &&& c.nonzero_rows().1 == to_end.nonzero_rows().0
            &&& seq_within(to_start.dependent_ids() + to_end.dependent_ids(), c.dependent_ids())
            &&& seq_within(c.dependent_ids(), to_start.dependent_ids() + to_end.dependent_ids())
        }),
{
    let c = Constraint::<S, A>::ArcRadius(arc, radius);
    let both = Constraint::<S, A>::Distance(arc.center, arc.start, radius).dependent_ids()
        + Constraint::<S, A>::Distance(arc.center, arc.end, radius).dependent_ids();
    let dep = c.dependent_ids();
    assert forall|i: int| 0 <= i < both.len() implies dep.contains(#[trigger] both[i]) by {
        let k: int = if i < 4 { i } else if i < 6 { i - 4 } else { i - 2 };
        assert(dep[k] == both[i]);
    }
    assert forall|i: int| 0 <= i < dep.len() implies both.contains(#[trigger] dep[i]) by {
        let k: int = if i < 4 { i } else { i + 2 };
        assert(both[k] == dep[i]);
    }
}

/// An arc angle is the angle between the rays from the arc's centre to its
/// start and to its end: it has the equation and the Jacobian row of that
/// lines-at-angle constraint.
pub proof fn lemma_arc_angle_is_lines_at_angle<S, A>(arc: DatumCircularArc, angle: A)
    ensures
        ({
            let c = Constraint::<S, A>::ArcAngle(arc, angle);
            let rays = Constraint::<S, A>::LinesAtAngle(
                arc_start_ray(arc),
                arc_end_ray(arc),
                AngleKind::Other(angle),
            );
            &&& c.spec_residual_dim() == rays.spec_residual_dim()
            &&& c.nonzero_rows() == rays.nonzero_rows()
        }),
{
}

/// The associated variables of a constraint are exactly the variables of
/// the datums it mentions, each as often as it occurs there: nothing is
/// dropped, repeated or added, whatever order they are emitted in.
pub proof fn lemma_associated_ids_are_mentioned_vars<S, A>(c: Constraint<S, A>)
    ensures
        c.associated_ids().to_multiset() =~= c.mentioned_vars().to_multiset(),
{
    broadcast use vstd::seq_lib::lemma_seq_union_to_multiset_commutative;

    match c {
        Constraint::VerticalPointLineDistance(point, line, _) => {
            assert(c.associated_ids() == line.vars() + point.vars());
            assert(c.mentioned_vars() == point.vars() + line.vars());
        },
        Constraint::HorizontalPointLineDistance(point, line, _) => {
            assert(c.associated_ids() == line.vars() + point.vars());
            assert(c.mentioned_vars() == point.vars() + line.vars());
        },
        Constraint::ScalarEqual(x, y) => {
            assert(c.associated_ids() =~= c.mentioned_vars());
        },
        _ => {
            assert(c.associated_ids() =~= c.mentioned_vars());
        },
    }
}

/// The residual of a constraint that reads whole datums depends on exactly
/// the variables of the datums it mentions, each as often as it occurs
/// there; the residual of one that reads part of its datums depends only
/// on variables of those datums, and on fewer of them.
pub proof fn lemma_dependent_ids_are_mentioned_vars<S, A>(c: Constraint<S, A>)
    ensures
        !c.reads_part_of_datums() ==> c.dependent_ids().to_multiset()
            =~= c.mentioned_vars().to_multiset(),
        c.reads_part_of_datums() ==> seq_within(c.dependent_ids(), c.mentioned_vars())
            && c.dependent_ids().len() < c.mentioned_vars().len(),
{
    broadcast use vstd::seq_lib::lemma_seq_union_to_multiset_commutative;
    broadcast use vstd::seq_lib::group_to_multiset_ensures;

    let dep = c.dependent_ids();
    let men = c.mentioned_vars();
    match c {
        Constraint::VerticalPointLineDistance(point, line, _) => {
            assert(dep == line.vars() + point.vars());
            assert(men == point.vars() + line.vars());
        },
        Constraint::HorizontalPointLineDistance(point, line, _) => {
            assert(dep == line.vars() + point.vars());
            assert(men == point.vars() + line.vars());
        },
        Constraint::Midpoint(line, point) => {
            let (a, b, c2, d, e, f) = (
                line.p0.x_id,
                line.p0.y_id,
                line.p1.x_id,
                line.p1.y_id,
                point.x_id,
                point.y_id,
            );
            assert(men =~= seq![a, b, c2, d, e, f]);
            assert(dep =~= seq![a, c2, e, b, d, f]);
            let m1 = seq![a, b, c2, d, e, f].to_multiset();
            let m2 = seq![a, c2, e, b, d, f].to_multiset();
            assert(seq![a, b, c2, d, e, f] =~= seq![a].push(b).push(c2).push(d).push(e).push(f));
            assert(seq![a, c2, e, b, d, f] =~= seq![a].push(c2).push(e).push(b).push(d).push(f));
            assert(seq![a].to_multiset() =~= Seq::<Id>::empty().push(a).to_multiset()) by {
                assert(seq![a] =~= Seq::<Id>::empty().push(a));
            }
            assert(m1 =~= m2);
        },
        Constraint::VerticalDistance(p0, p1, _) => {
            assert(men[1] == dep[0] && men[3] == dep[1]);
        },
        Constraint::HorizontalDistance(p0, p1, _) => {
            assert(men[0] == dep[0] && men[2] == dep[1]);
        },
        Constraint::Vertical(line) => {
            assert(men[0] == dep[0] && men[2] == dep[1]);
        },
        Constraint::Horizontal(line) => {
            assert(men[1] == dep[0] && men[3] == dep[1]);
        },
        Constraint::CircleRadius(circle, _) => {
            assert(men[2] == dep[0]);
        },
        _ => {
            assert(dep =~= men);
        },
    }
}

/// Each Jacobian row names only variables the constraint's residual depends
/// on. Unless the constraint's equations split by axis or by arc end, every
/// row it fills names every variable its residual depends on: each of its
/// equations reads all of them.
pub proof fn lemma_each_row_reads_dependent_ids<S, A>(c: Constraint<S, A>)
    ensures
        seq_within(c.nonzero_rows().0, c.dependent_ids()),
        seq_within(c.nonzero_rows().1, c.dependent_ids()),
        !c.splits_rows() ==> seq_within(c.dependent_ids(), c.nonzero_rows().0),
        !c.splits_rows() && c.nonzero_rows().1.len() > 0 ==> seq_within(
            c.dependent_ids(),
            c.nonzero_rows().1,
        ),
{
    lemma_rows_cover_dependent_ids(c);
    let (r0, r1) = c.nonzero_rows();
    let rows = r0 + r1;
    assert forall|i: int| 0 <= i < r0.len() implies c.dependent_ids().contains(#[trigger] r0[i]) by {
        assert(rows[i] == r0[i]);
    }
    assert forall|i: int| 0 <= i < r1.len() implies c.dependent_ids().contains(#[trigger] r1[i]) by {
        assert(rows[r0.len() + i] == r1[i]);
    }
    let dep = c.dependent_ids();
    match c {
        Constraint::ArcAngle(..) => {
            assert forall|i: int| 0 <= i < dep.len() implies r0.contains(#[trigger] dep[i]) by {
                let k: int = if i < 4 { i } else { i + 2 };
                assert(r0[k] == dep[i]);
            }
        },
        _ => {
            if !c.splits_rows() {
                assert forall|i: int| 0 <= i < dep.len() implies r0.contains(#[trigger] dep[i]) by {
                    assert(r0[i] == dep[i]);
                }
                if r1.len() > 0 {
                    assert forall|i: int| 0 <= i < dep.len() implies r1.contains(#[trigger] dep[i]) by {
                        assert(r1[i] == dep[i]);
                    }
                }
            }
        },
    }
}

/// `s` and `t` hold the same values, order and repetition aside.
pub open spec fn same_ids(s: Seq<Id>, t: Seq<Id>) -> bool {
    seq_within(s, t) && seq_within(t, s)
}

/// The constraints whose equations split: two coinciding points and a
/// midpoint have one equation per axis, whose row reads the X variables,
/// respectively the Y variables, of the points involved; an arc radius has
/// one distance equation per end of the arc, whose row reads the centre and
/// that end.
pub proof fn lemma_split_rows_read_their_part<S, A>(c: Constraint<S, A>)
    ensures
        c matches Constraint::PointsCoincident(p0, p1) ==> {
            &&& same_ids(c.nonzero_rows().0, seq![p0.x_id, p1.x_id])
            &&& same_ids(c.nonzero_rows().1, seq![p0.y_id, p1.y_id])
        },
        c matches Constraint::Midpoint(line, point) ==> {
            &&& same_ids(c.nonzero_rows().0, seq![line.p0.x_id, line.p1.x_id, point.x_id])
            &&& same_ids(c.nonzero_rows().1, seq![line.p0.y_id, line.p1.y_id, point.y_id])
        },
        c matches Constraint::ArcRadius(arc, _) ==> {
            &&& same_ids(c.nonzero_rows().0, arc.center.vars() + arc.start.vars())
            &&& same_ids(c.nonzero_rows().1, arc.center.vars() + arc.end.vars())
        },
{
    let (r0, r1) = c.nonzero_rows();
    match c {
        Constraint::PointsCoincident(..) | Constraint::Midpoint(..) | Constraint::ArcRadius(..) => {
            assert forall|i: int| 0 <= i < r0.len() implies r0.contains(#[trigger] r0[i]) by {}
            assert forall|i: int| 0 <= i < r1.len() implies r1.contains(#[trigger] r1[i]) by {}
        },
        _ => {},
    }
}

} // verus!
