//! Positions.
use vstd::prelude::*;
use crate::coord::{Coord, Primitive};
use crate::zero::Zero;

verus! {

/// An absolute position. A point is not a displacement, though both hold
/// two scalars: the types keep them apart.
#[derive(Debug, Clone, Copy, PartialEq, Eq, Hash, Structural)]
pub struct Point<T: Primitive> {
    pub x: T,
    pub y: T,
}

impl<T: Primitive> Point<T> {
    /// The position at column `x` and row `y`.
    pub fn new(x: T, y: T) -> (r: Self)
        ensures
            r == (Point { x, y }),
    {
        Self { x, y }
    }

    /// The column of the position.
    pub fn x(self) -> (r: T)
        ensures
            r == self.x,
    {
        self.x
    }

    /// The row of the position.
    pub fn y(self) -> (r: T)
        ensures
            r == self.y,
    {
        self.y
    }
}

impl<T: Primitive + Zero> Point<T> {
    /// The point whose components are both zero.
    pub fn zero() -> (r: Self)
        ensures
            r.x.is_zero_value(),
            r.y.is_zero_value(),
    {
        Self::new(T::zero(), T::zero())
    }

    /// Whether both components are zero.
    pub fn is_zero(&self) -> (r: bool)
        ensures
            r == (self.x.is_zero_value() && self.y.is_zero_value()),
    {
        self.x().is_zero() && self.y().is_zero()
    }
}

impl<T: Primitive + Default> Default for Point<T> {
    /// Both components are defaults of the scalar type.
    fn default() -> (r: Self)
        ensures
            call_ensures(T::default, (), r.x),
            call_ensures(T::default, (), r.y),
    {
        Self::new(T::default(), T::default())
    }
}

impl<T: Primitive> Coord for Point<T> {
    type Item = T;

    open spec fn pair(x: T, y: T) -> Self {
        Point { x, y }
    }

    open spec fn x_of(self) -> T {
        self.x
    }

    open spec fn y_of(self) -> T {
        self.y
    }

    proof fn lemma_projections(x: T, y: T) {
    }

    proof fn lemma_rebuild(self) {
    }

    fn from_x_y(x: T, y: T) -> (r: Self) {
        Self::new(x, y)
    }

    fn x(&self) -> (r: T) {
        self.x
    }

    fn y(&self) -> (r: T) {
        self.y
    }
}

} // verus!
