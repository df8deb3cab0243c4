//! Moving shapes by a displacement.
use vstd::prelude::*;
use vstd::std_specs::ops::AddSpec;
use core::ops::Add;
use crate::coord::Primitive;
use crate::point::Point;
use crate::rect::Rect;
use crate::vector::Vector;

verus! {

/// Shapes that a displacement moves to another place.
pub trait MoveBy<T: Primitive>: Sized {
    /// Whether the move can be computed.
    spec fn can_move_by(self, vector: Vector<T>) -> bool;

    /// Whether `move_by` gives what `moved_by` says.
    spec fn obeys_move_by() -> bool;

    /// The shape at its new place.
    spec fn moved_by(self, vector: Vector<T>) -> Self;

    /// The shape moved by `vector`.
    fn move_by(self, vector: Vector<T>) -> (r: Self)
        requires
            self.can_move_by(vector),
        ensures
            Self::obeys_move_by() ==> r == self.moved_by(vector),
    ;
}

/// A point moves by addition of the displacement.
impl<T: Primitive, VP: Primitive> MoveBy<VP> for Point<T> where
    Point<T>: Add<Vector<VP>, Output = Point<T>>,
 {
    open spec fn can_move_by(self, vector: Vector<VP>) -> bool {
        self.add_req(vector)
    }

    open spec fn obeys_move_by() -> bool {
        <Point<T> as AddSpec<Vector<VP>>>::obeys_add_spec()
    }

    open spec fn moved_by(self, vector: Vector<VP>) -> Self {
        self.add_spec(vector)
    }

    fn move_by(self, vector: Vector<VP>) -> (r: Self) {
        self + vector
    }
}

/// A rectangle moves with its origin and keeps its size.
impl<T: Primitive, VP: Primitive> MoveBy<VP> for Rect<T> where Point<T>: MoveBy<VP> {
    open spec fn can_move_by(self, vector: Vector<VP>) -> bool {
        self.origin.can_move_by(vector)
    }

    open spec fn obeys_move_by() -> bool {
        <Point<T> as MoveBy<VP>>::obeys_move_by()
    }

    open spec fn moved_by(self, vector: Vector<VP>) -> Self {
        Rect { origin: self.origin.moved_by(vector), size: self.size }
    }

    fn move_by(self, vector: Vector<VP>) -> (r: Self) {
        Self::new(self.origin().move_by(vector), self.size())
    }
}

/// A tuple of shapes moves member by member.
impl<VP: Primitive, T: MoveBy<VP>> MoveBy<VP> for (T,) {
    open spec fn can_move_by(self, vector: Vector<VP>) -> bool {
        self.0.can_move_by(vector)
    }

    open spec fn obeys_move_by() -> bool {
        T::obeys_move_by()
    }

    open spec fn moved_by(self, vector: Vector<VP>) -> Self {
        (self.0.moved_by(vector),)
    }

    fn move_by(self, vector: Vector<VP>) -> (r: Self) {
        (self.0.move_by(vector),)
    }
}

impl<VP: Primitive, T0: MoveBy<VP>, T1: MoveBy<VP>> MoveBy<VP> for (T0, T1) {
    open spec fn can_move_by(self, vector: Vector<VP>) -> bool {
        self.0.can_move_by(vector) && self.1.can_move_by(vector)
    }

    open spec fn obeys_move_by() -> bool {
        T0::obeys_move_by() && T1::obeys_move_by()
    }

    open spec fn moved_by(self, vector: Vector<VP>) -> Self {
        (self.0.moved_by(vector), self.1.moved_by(vector))
    }

    fn move_by(self, vector: Vector<VP>) -> (r: Self) {
        (self.0.move_by(vector), self.1.move_by(vector))
    }
}

impl<VP: Primitive, T0: MoveBy<VP>, T1: MoveBy<VP>, T2: MoveBy<VP>> MoveBy<VP> for (T0, T1, T2) {
    open spec fn can_move_by(self, vector: Vector<VP>) -> bool {
        self.0.can_move_by(vector) && self.1.can_move_by(vector) && self.2.can_move_by(vector)
    }

    open spec fn obeys_move_by() -> bool {
        T0::obeys_move_by() && T1::obeys_move_by() && T2::obeys_move_by()
    }

    open spec fn moved_by(self, vector: Vector<VP>) -> Self {
        (self.0.moved_by(vector), self.1.moved_by(vector), self.2.moved_by(vector))
    }

    fn move_by(self, vector: Vector<VP>) -> (r: Self) {
        (self.0.move_by(vector), self.1.move_by(vector), self.2.move_by(vector))
    }
}

} // verus!
