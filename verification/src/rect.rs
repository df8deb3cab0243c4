//! Rectangles: an origin and an extent, half-open on both axes.
use vstd::prelude::*;
use vstd::std_specs::cmp::{PartialOrdIs, PartialOrdSpec};
use vstd::std_specs::ops::AddSpec;
use core::ops::Add;
use crate::coord::{Coord, Primitive};
use crate::point::Point;
use crate::point_step::PointStep;
use crate::size::Size;

verus! {

/// A rectangle: the point of its least corner and its extent.
#[derive(Debug, Clone, Copy, PartialEq, Eq, Hash, Structural)]
pub struct Rect<T: Primitive> {
    pub origin: Point<T>,
    pub size: Size<T>,
}

impl<T: Primitive> Rect<T> {
    /// The rectangle of extent `size` whose least corner is `origin`.
    pub fn new(origin: Point<T>, size: Size<T>) -> (r: Self)
        ensures
            r == (Rect { origin, size }),
    {
        Self { origin, size }
    }

    /// The least corner, which belongs to the rectangle.
    pub fn origin(&self) -> (r: Point<T>)
        ensures
            r == self.origin,
    {
        self.origin
    }

    /// The extent of the rectangle.
    pub fn size(&self) -> (r: Size<T>)
        ensures
            r == self.size,
    {
        self.size
    }

    /// The corner opposite the origin, which lies just outside the
    /// rectangle: origin plus size.
    pub open spec fn corner(self) -> Point<T> where Point<T>: Add<Size<T>, Output = Point<T>> {
        self.origin.add_spec(self.size)
    }

    /// Whether origin plus size can be computed.
    pub open spec fn has_corner(self) -> bool where Point<T>: Add<Size<T>, Output = Point<T>> {
        self.origin.add_req(self.size)
    }

    /// Whether `point` is at or beyond the origin on both axes.
    pub open spec fn reaches(self, point: Point<T>) -> bool where T: PartialOrd {
        self.origin.x.is_le(&point.x) && self.origin.y.is_le(&point.y)
    }

    /// Whether `point` lies in the rectangle: at or beyond the origin and
    /// strictly before the opposite corner, on both axes.
    pub open spec fn holds(self, point: Point<T>) -> bool where
        T: PartialOrd,
        Point<T>: Add<Size<T>, Output = Point<T>>,
     {
        &&& self.reaches(point)
        &&& point.x.is_lt(&self.corner().x)
        &&& point.y.is_lt(&self.corner().y)
    }

    /// The corner opposite the origin: origin plus size.
    pub fn max(&self) -> (r: Point<T>) where Point<T>: Add<Size<T>, Output = Point<T>>
        requires
            self.has_corner(),
        ensures
            Point::<T>::obeys_add_spec() ==> r == self.corner(),
    {
        self.origin() + self.size()
    }

    /// Whether `point` lies in the rectangle. The opposite corner is computed
    /// only for a point at or beyond the origin, so only then must it be
    /// computable.
    pub fn contains(&self, point: Point<T>) -> (r: bool) where
        T: PartialOrd,
        Point<T>: Add<Size<T>, Output = Point<T>>,

        requires
            self.has_corner() || (T::obeys_partial_cmp_spec() && !self.reaches(point)),
        ensures
            T::obeys_partial_cmp_spec() && Point::<T>::obeys_add_spec() ==> r == self.holds(point),
    {
        self.origin.x() <= point.x() && self.origin.y() <= point.y() && point.x() < self.max().x()
            && point.y() < self.max().y()
    }
}

/// A rectangle is half-open: over scalars that are ordered as the integers
/// are, the corner opposite the origin does not lie in it.
pub proof fn lemma_corner_outside<T: PointStep>(r: Rect<T>) where
    Point<T>: Add<Size<T>, Output = Point<T>>,

    ensures
        !r.holds(r.corner()),
{
    T::lemma_order(r.corner().x, r.corner().x);
}

impl<T: Primitive> Coord for Rect<T> {
    type Item = (T, T);

    open spec fn pair(x: (T, T), y: (T, T)) -> Self {
        Rect { origin: Point { x: x.0, y: y.0 }, size: Size { width: x.1, height: y.1 } }
    }

    open spec fn x_of(self) -> (T, T) {
        (self.origin.x, self.size.width)
    }

    open spec fn y_of(self) -> (T, T) {
        (self.origin.y, self.size.height)
    }

    proof fn lemma_projections(x: (T, T), y: (T, T)) {
    }

    proof fn lemma_rebuild(self) {
    }

    fn from_x_y(x: (T, T), y: (T, T)) -> (r: Self) {
        Self::new(Point::new(x.0, y.0), Size::new(x.1, y.1))
    }

    fn x(&self) -> (r: (T, T)) {
        (self.origin().x(), self.size().x())
    }

    fn y(&self) -> (r: (T, T)) {
        (self.origin().y(), self.size().y())
    }
}

} // verus!
