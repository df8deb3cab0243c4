//! The pair abstraction that everything else is written over.
use vstd::prelude::*;

verus! {

/// Any copyable scalar that may serve as a coordinate component.
pub trait Primitive: Copy {
}

impl<T: Copy> Primitive for T {
}

/// A value that is an ordered pair `(x, y)` of components of one type.
pub trait Coord: Sized {
    type Item;

    /// The value whose components are `x` and `y`.
    spec fn pair(x: Self::Item, y: Self::Item) -> Self;

    /// The component on the X axis.
    spec fn x_of(self) -> Self::Item;

    /// The component on the Y axis.
    spec fn y_of(self) -> Self::Item;

    /// Building a value and projecting it gives the components back.
    proof fn lemma_projections(x: Self::Item, y: Self::Item)
        ensures
            Self::pair(x, y).x_of() == x,
            Self::pair(x, y).y_of() == y,
    ;

    /// A value is determined by its two components.
    proof fn lemma_rebuild(self)
        ensures
            Self::pair(self.x_of(), self.y_of()) == self,
    ;

    /// Builds the value from its two components.
    fn from_x_y(x: Self::Item, y: Self::Item) -> (r: Self)
        ensures
            r == Self::pair(x, y),
    ;

    /// The component on the X axis.
    fn x(&self) -> (r: Self::Item)
        ensures
            r == self.x_of(),
    ;

    /// The component on the Y axis.
    fn y(&self) -> (r: Self::Item)
        ensures
            r == self.y_of(),
    ;
}

/// Construction and projection round-trip: the pair built from `x` and `y`
/// has `x` as its X component and `y` as its Y component.
pub proof fn lemma_round_trip<C: Coord>(x: C::Item, y: C::Item)
    ensures
        C::pair(x, y).x_of() == x,
        C::pair(x, y).y_of() == y,
{
    C::lemma_projections(x, y);
}

/// Two pairs of one type with equal components are the same value.
pub proof fn lemma_same_components<C: Coord>(a: C, b: C)
    requires
        a.x_of() == b.x_of(),
        a.y_of() == b.y_of(),
    ensures
        a == b,
{
    a.lemma_rebuild();
    b.lemma_rebuild();
}

} // verus!
