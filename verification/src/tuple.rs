//! Tuples of pairs as pairs of tuples, for one, two and three members.
use vstd::prelude::*;
use crate::coord::Coord;

verus! {

/// A tuple of one pair is a pair of one-member tuples.
impl<C: Coord> Coord for (C,) {
    type Item = (C::Item,);

    open spec fn pair(x: Self::Item, y: Self::Item) -> Self {
        (C::pair(x.0, y.0),)
    }

    open spec fn x_of(self) -> Self::Item {
        (self.0.x_of(),)
    }

    open spec fn y_of(self) -> Self::Item {
        (self.0.y_of(),)
    }

    proof fn lemma_projections(x: Self::Item, y: Self::Item) {
        C::lemma_projections(x.0, y.0);
    }

    proof fn lemma_rebuild(self) {
        self.0.lemma_rebuild();
    }

    fn from_x_y(x: Self::Item, y: Self::Item) -> (r: Self) {
        (C::from_x_y(x.0, y.0),)
    }

    fn x(&self) -> (r: Self::Item) {
        (self.0.x(),)
    }

    fn y(&self) -> (r: Self::Item) {
        (self.0.y(),)
    }
}

/// Two pairs side by side are one pair, whose components are the tuples of
/// the members' components.
impl<C0: Coord, C1: Coord> Coord for (C0, C1) {
    type Item = (C0::Item, C1::Item);

    open spec fn pair(x: Self::Item, y: Self::Item) -> Self {
        (C0::pair(x.0, y.0), C1::pair(x.1, y.1))
    }

    open spec fn x_of(self) -> Self::Item {
        (self.0.x_of(), self.1.x_of())
    }

    open spec fn y_of(self) -> Self::Item {
        (self.0.y_of(), self.1.y_of())
    }

    proof fn lemma_projections(x: Self::Item, y: Self::Item) {
        C0::lemma_projections(x.0, y.0);
        C1::lemma_projections(x.1, y.1);
    }

    proof fn lemma_rebuild(self) {
        self.0.lemma_rebuild();
        self.1.lemma_rebuild();
    }

    fn from_x_y(x: Self::Item, y: Self::Item) -> (r: Self) {
        (C0::from_x_y(x.0, y.0), C1::from_x_y(x.1, y.1))
    }

    fn x(&self) -> (r: Self::Item) {
        (self.0.x(), self.1.x())
    }

    fn y(&self) -> (r: Self::Item) {
        (self.0.y(), self.1.y())
    }
}

/// Three pairs side by side are one pair, in the same way.
impl<C0: Coord, C1: Coord, C2: Coord> Coord for (C0, C1, C2) {
    type Item = (C0::Item, C1::Item, C2::Item);

    open spec fn pair(x: Self::Item, y: Self::Item) -> Self {
        (C0::pair(x.0, y.0), C1::pair(x.1, y.1), C2::pair(x.2, y.2))
    }

    open spec fn x_of(self) -> Self::Item {
        (self.0.x_of(), self.1.x_of(), self.2.x_of())
    }

    open spec fn y_of(self) -> Self::Item {
        (self.0.y_of(), self.1.y_of(), self.2.y_of())
    }

    proof fn lemma_projections(x: Self::Item, y: Self::Item) {
        C0::lemma_projections(x.0, y.0);
        C1::lemma_projections(x.1, y.1);
        C2::lemma_projections(x.2, y.2);
    }

    proof fn lemma_rebuild(self) {
        self.0.lemma_rebuild();
        self.1.lemma_rebuild();
        self.2.lemma_rebuild();
    }

    fn from_x_y(x: Self::Item, y: Self::Item) -> (r: Self) {
        (C0::from_x_y(x.0, y.0), C1::from_x_y(x.1, y.1), C2::from_x_y(x.2, y.2))
    }

    fn x(&self) -> (r: Self::Item) {
        (self.0.x(), self.1.x(), self.2.x())
    }

    fn y(&self) -> (r: Self::Item) {
        (self.0.y(), self.1.y(), self.2.y())
    }
}

/// A tuple of pairs projects member by member: its X component is the tuple
/// of the members' X components, and likewise for Y.
pub proof fn lemma_tuple_elementwise<C0: Coord, C1: Coord>(a: C0, b: C1)
    ensures
        (a, b).x_of() == (a.x_of(), b.x_of()),
        (a, b).y_of() == (a.y_of(), b.y_of()),
{
}

/// A tuple of one pair projects as that pair does.
pub proof fn lemma_single_elementwise<C: Coord>(a: C)
    ensures
        (a,).x_of() == (a.x_of(),),
        (a,).y_of() == (a.y_of(),),
{
}

/// A tuple of three pairs projects member by member.
pub proof fn lemma_triple_elementwise<C0: Coord, C1: Coord, C2: Coord>(a: C0, b: C1, c: C2)
    ensures
        (a, b, c).x_of() == (a.x_of(), b.x_of(), c.x_of()),
        (a, b, c).y_of() == (a.y_of(), b.y_of(), c.y_of()),
{
}

} // verus!
