//! Extents.
use vstd::prelude::*;
use vstd::std_specs::ops::MulSpec;
use core::ops::Mul;
use crate::coord::{Coord, Primitive};

verus! {

/// An extent: a width along the X axis and a height along the Y axis.
#[derive(Debug, Clone, Copy, PartialEq, Eq, Hash, Structural)]
pub struct Size<T: Primitive> {
    pub width: T,
    pub height: T,
}

impl<T: Primitive> Size<T> {
    /// The extent of the given width and height.
    pub fn new(width: T, height: T) -> (r: Self)
        ensures
            r == (Size { width, height }),
    {
        Self { width, height }
    }

    /// The extent along the X axis.
    pub fn width(&self) -> (r: T)
        ensures
            r == self.width,
    {
        self.width
    }

    /// The extent along the Y axis.
    pub fn height(&self) -> (r: T)
        ensures
            r == self.height,
    {
        self.height
    }

    /// The product of width and height, as the scalar type multiplies.
    pub fn area(&self) -> (r: <T as Mul<T>>::Output) where T: Mul<T>
        requires
            self.width.mul_req(self.height),
        ensures
            <T as MulSpec<T>>::obeys_mul_spec() ==> r == self.width.mul_spec(self.height),
    {
        self.width() * self.height()
    }
}

impl<T: Primitive> Coord for Size<T> {
    type Item = T;

    open spec fn pair(x: T, y: T) -> Self {
        Size { width: x, height: y }
    }

    open spec fn x_of(self) -> T {
        self.width
    }

    open spec fn y_of(self) -> T {
        self.height
    }

    proof fn lemma_projections(x: T, y: T) {
    }

    proof fn lemma_rebuild(self) {
    }

    fn from_x_y(x: T, y: T) -> (r: Self) {
        Self::new(x, y)
    }

    fn x(&self) -> (r: T) {
        self.width()
    }

    fn y(&self) -> (r: T) {
        self.height()
    }
}

} // verus!
