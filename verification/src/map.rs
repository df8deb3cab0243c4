//! The structural transform of a pair, component by component.
use vstd::prelude::*;
use crate::coord::{lemma_same_components, Coord};

verus! {

/// Structural transform: one function applied to each component, the results
/// assembled into a possibly different pair type.
pub trait CoordMap: Coord {
    /// The pair of `f(x)` and `f(y)`, in the pair type `R`. `f` is called on
    /// the X component first.
    fn map<R: Coord>(&self, mut f: impl FnMut(Self::Item) -> R::Item) -> (r: R)
        requires
            f.requires((self.x_of(),)),
            f.requires((self.y_of(),)),
        ensures
            f.ensures((self.x_of(),), r.x_of()),
            f.ensures((self.y_of(),), r.y_of()),
    {
        let x = f(self.x());
        let y = f(self.y());
        proof {
            R::lemma_projections(x, y);
        }
        R::from_x_y(x, y)
    }
}

impl<T: Coord> CoordMap for T {
}

/// Mapping with the identity gives the value back: if `f` returns each
/// argument unchanged, every result `r` of `v.map(f)` in `v`'s own type is `v`.
pub proof fn lemma_map_identity<C: Coord, F: FnMut(C::Item) -> C::Item>(v: C, f: F, r: C)
    requires
        forall|a: C::Item, b: C::Item| f.ensures((a,), b) ==> b == a,
        f.ensures((v.x_of(),), r.x_of()),
        f.ensures((v.y_of(),), r.y_of()),
    ensures
        r == v,
{
    lemma_same_components(r, v);
}

} // verus!
