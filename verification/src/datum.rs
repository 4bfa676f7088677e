//! Geometric datums: the unknowns that constraints talk about, each made of
//! one or more scalar variables named by an [`Id`].
use vstd::prelude::*;

verus! {

/// The name of one scalar variable of the system.
pub type Id = u32;

/// Hands out fresh variable IDs, counting up from zero.
#[derive(Debug)]
pub struct IdGenerator {
    next: Id,
}

impl View for IdGenerator {
    type V = nat;

    /// The next ID this generator will hand out.
    closed spec fn view(&self) -> nat {
        self.next as nat
    }
}

impl Default for IdGenerator {
    fn default() -> (r: Self)
        ensures
            r@ == 0,
    {
        IdGenerator { next: 0 }
    }
}

impl IdGenerator {
    /// Returns a fresh ID, one greater than the last one handed out.
    pub fn next_id(&mut self) -> (id: Id)
        requires
            old(self)@ < Id::MAX,
        ensures
            id == old(self)@,
            final(self)@ == old(self)@ + 1,
    {
        let id: Id = self.next;
        self.next = self.next + 1;
        id
    }
}

/// Appends `ids` to `out`, in order.
pub(crate) fn push_all(out: &mut Vec<Id>, ids: &[Id])
    ensures
        final(out)@ == old(out)@ + ids@,
{
    let mut i: usize = 0;
    while i < ids.len()
        invariant
            i <= ids@.len(),
            out@ == old(out)@ + ids@.subrange(0, i as int),
        decreases ids@.len() - i,
    {
        out.push(ids[i]);
        i = i + 1;
        assert(ids@.subrange(0, i as int) == ids@.subrange(0, i - 1) + seq![ids@[i - 1]]);
    }
    assert(ids@.subrange(0, ids@.len() as int) == ids@);
}

/// A point in the plane, made of an X variable and a Y variable.
#[derive(Clone, Copy, Debug, PartialEq, Eq, Structural)]
pub struct DatumPoint {
    /// The variable holding the X coordinate.
    pub x_id: Id,
    /// The variable holding the Y coordinate.
    pub y_id: Id,
}

impl DatumPoint {
    /// A point whose coordinates are two fresh variables.
    pub fn new(ids: &mut IdGenerator) -> (p: DatumPoint)
        requires
            old(ids)@ + 2 <= Id::MAX,
        ensures
            p.x_id == old(ids)@,
            p.y_id == old(ids)@ + 1,
            final(ids)@ == old(ids)@ + 2,
    {
        let x_id: Id = ids.next_id();
        let y_id: Id = ids.next_id();
        DatumPoint { x_id, y_id }
    }

    /// A point made of the given X and Y variables.
    pub fn new_xy(x_id: Id, y_id: Id) -> (p: DatumPoint)
        ensures
            p.x_id == x_id,
            p.y_id == y_id,
    {
        DatumPoint { x_id, y_id }
    }

    /// The variable holding the X coordinate.
    pub fn id_x(&self) -> (id: Id)
        ensures
            id == self.x_id,
    {
        self.x_id
    }

    /// The variable holding the Y coordinate.
    pub fn id_y(&self) -> (id: Id)
        ensures
            id == self.y_id,
    {
        self.y_id
    }

    /// The point's variables: X, then Y.
    pub open spec fn vars(self) -> Seq<Id> {
        seq![self.x_id, self.y_id]
    }

    /// The point's variables: X, then Y.
    pub fn all_variables(&self) -> (r: [Id; 2])
        ensures
            r@ == self.vars(),
    {
        [self.x_id, self.y_id]
    }
}

/// A length, held in a single variable.
#[derive(Clone, Copy, Debug, PartialEq, Eq, Structural)]
pub struct DatumDistance {
    /// The variable holding the length.
    pub id: Id,
}

impl DatumDistance {
    /// A length held in variable `id`.
    pub fn new(id: Id) -> (d: DatumDistance)
        ensures
            d.id == id,
    {
        DatumDistance { id }
    }

    /// The length's single variable.
    pub open spec fn vars(self) -> Seq<Id> {
        seq![self.id]
    }

    /// The length's single variable.
    pub fn all_variables(&self) -> (r: [Id; 1])
        ensures
            r@ == self.vars(),
    {
        [self.id]
    }
}

/// A line segment from `p0` to `p1`.
#[derive(Clone, Copy, Debug, PartialEq, Eq, Structural)]
pub struct DatumLineSegment {
    /// Where the segment starts.
    pub p0: DatumPoint,
    /// Where the segment ends.
    pub p1: DatumPoint,
}

impl DatumLineSegment {
    /// The segment from `p0` to `p1`.
    pub fn new(p0: DatumPoint, p1: DatumPoint) -> (l: DatumLineSegment)
        ensures
            l.p0 == p0,
            l.p1 == p1,
    {
        DatumLineSegment { p0, p1 }
    }

    /// The segment's variables: those of `p0`, then those of `p1`.
    pub open spec fn vars(self) -> Seq<Id> {
        self.p0.vars() + self.p1.vars()
    }

    /// The segment's variables: those of `p0`, then those of `p1`.
    pub fn all_variables(&self) -> (r: [Id; 4])
        ensures
            r@ == self.vars(),
    {
        let r = [self.p0.x_id, self.p0.y_id, self.p1.x_id, self.p1.y_id];
        assert(r@ =~= self.vars());
        r
    }
}

/// A circle given by its centre and its radius.
#[derive(Clone, Copy, Debug, PartialEq, Eq, Structural)]
pub struct DatumCircle {
    /// The centre.
    pub center: DatumPoint,
    /// The radius.
    pub radius: DatumDistance,
}

impl DatumCircle {
    /// The circle's variables: the centre's, then the radius.
    pub open spec fn vars(self) -> Seq<Id> {
        self.center.vars() + self.radius.vars()
    }

    /// The circle's variables: the centre's, then the radius.
    pub fn all_variables(&self) -> (r: [Id; 3])
        ensures
            r@ == self.vars(),
    {
        let r = [self.center.x_id, self.center.y_id, self.radius.id];
        assert(r@ =~= self.vars());
        r
    }
}

/// A circular arc given by its centre and its two end points,
/// running counter-clockwise from `start` to `end`.
#[derive(Clone, Copy, Debug, PartialEq, Eq, Structural)]
pub struct DatumCircularArc {
    /// The centre.
    pub center: DatumPoint,
    /// Where the arc starts.
    pub start: DatumPoint,
    /// Where the arc ends.
    pub end: DatumPoint,
}

impl DatumCircularArc {
    /// The arc's variables: the centre's, the start's, then the end's.
    pub open spec fn vars(self) -> Seq<Id> {
        self.center.vars() + self.start.vars() + self.end.vars()
    }

    /// The arc's variables: the centre's, the start's, then the end's.
    pub fn all_variables(&self) -> (r: [Id; 6])
        ensures
            r@ == self.vars(),
    {
        let r = [
            self.center.x_id,
            self.center.y_id,
            self.start.x_id,
            self.start.y_id,
            self.end.x_id,
            self.end.y_id,
        ];
        assert(r@ =~= self.vars());
        r
    }
}

/// The angle two lines should meet at. `A` is the type of a general angle.
#[derive(Clone, Copy, Debug)]
pub enum AngleKind<A> {
    /// The lines point the same way.
    Parallel,
    /// The lines meet at a right angle.
    Perpendicular,
    /// The lines meet at the given angle.
    Other(A),
}

} // verus!
