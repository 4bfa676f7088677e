//! A geometric constraint system: datums (points, lines, circles, arcs)
//! and the constraints between them, with the bookkeeping that decides
//! which variables each constraint touches and in which order constraints
//! of different priorities are solved.
pub mod constraints;
pub mod datum;
pub mod solve;

pub use constraints::{CircleSide, Constraint, LineSide};
pub use datum::{
    AngleKind, DatumCircle, DatumCircularArc, DatumDistance, DatumLineSegment, DatumPoint, Id,
    IdGenerator,
};
