//! The exchange of the two components of a pair.
use vstd::prelude::*;
use crate::coord::Coord;

verus! {

/// `c` with its two components exchanged.
pub open spec fn transposed<C: Coord>(c: C) -> C {
    C::pair(c.y_of(), c.x_of())
}

/// Exchange of the two components of a pair.
pub trait Transpose: Coord {
    /// The pair with its components exchanged.
    fn transpose(&self) -> (r: Self)
        ensures
            r == transposed(*self),
    {
        Self::from_x_y(self.y(), self.x())
    }
}

impl<T: Coord> Transpose for T {
}

/// Exchanging the components twice gives the value back.
pub proof fn lemma_transpose_involution<C: Coord>(v: C)
    ensures
        transposed(transposed(v)) == v,
{
    C::lemma_projections(v.y_of(), v.x_of());
    v.lemma_rebuild();
}

} // verus!
