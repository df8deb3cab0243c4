//! Growing shapes by a displacement.
use vstd::prelude::*;
use vstd::std_specs::ops::AddSpec;
use core::ops::Add;
use crate::coord::Primitive;
use crate::map::CoordMap;
use crate::ops::pair_sum;
use crate::rect::Rect;
use crate::size::Size;
use crate::vector::Vector;

verus! {

/// Shapes that a displacement makes larger.
pub trait ExpandBy<T: Primitive>: Sized {
    /// Whether the expansion can be computed.
    spec fn can_expand_by(self, vector: Vector<T>) -> bool;

    /// Whether `expand_by` gives what `expanded_by` says.
    spec fn obeys_expand_by() -> bool;

    /// The shape with its new extent.
    spec fn expanded_by(self, vector: Vector<T>) -> Self;

    /// The shape grown by `vector`.
    fn expand_by(self, vector: Vector<T>) -> (r: Self)
        requires
            self.can_expand_by(vector),
        ensures
            Self::obeys_expand_by() ==> r == self.expanded_by(vector),
    ;
}

/// A size grows by the displacement, axis by axis.
impl<VP: Primitive, T: Primitive + Add<VP, Output = T>> ExpandBy<VP> for Size<T> {
    open spec fn can_expand_by(self, vector: Vector<VP>) -> bool {
        self.width.add_req(vector.x) && self.height.add_req(vector.y)
    }

    open spec fn obeys_expand_by() -> bool {
        <T as AddSpec<VP>>::obeys_add_spec()
    }

    open spec fn expanded_by(self, vector: Vector<VP>) -> Self {
        Size { width: self.width.add_spec(vector.x), height: self.height.add_spec(vector.y) }
    }

    fn expand_by(self, vector: Vector<VP>) -> (r: Self) {
        (self, vector).map(pair_sum::<T, VP>)
    }
}

/// A rectangle grows with its size and keeps its origin.
impl<T: Primitive, VP: Primitive> ExpandBy<VP> for Rect<T> where Size<T>: ExpandBy<VP> {
    open spec fn can_expand_by(self, vector: Vector<VP>) -> bool {
        self.size.can_expand_by(vector)
    }

    open spec fn obeys_expand_by() -> bool {
        <Size<T> as ExpandBy<VP>>::obeys_expand_by()
    }

    open spec fn expanded_by(self, vector: Vector<VP>) -> Self {
        Rect { origin: self.origin, size: self.size.expanded_by(vector) }
    }

    fn expand_by(self, vector: Vector<VP>) -> (r: Self) {
        Self::new(self.origin(), self.size().expand_by(vector))
    }
}

} // verus!
