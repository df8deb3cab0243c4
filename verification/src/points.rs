//! Walks over the points of an extent laid at an origin, and of a rectangle.
use vstd::prelude::*;
use vstd::std_specs::ops::AddSpec;
use core::ops::Add;
use crate::coord::Primitive;
use crate::point::Point;
use crate::point_range::PointRange;
use crate::point_range_iterator::{extent, PointRangeIterator, PointRangeIteratorInclusive};
use crate::point_step::PointStep;
use crate::rect::Rect;
use crate::size::Size;
use crate::vector::Vector;

verus! {

impl<T: Primitive> Size<T> where Point<T>: Add<Size<T>, Output = Point<T>> {
    /// The walk from `origin` up to, but without, the row and the column of
    /// `origin + self`, in steps of `step`.
    pub fn points_step<S: Primitive>(&self, origin: Point<T>, step: Vector<S>) -> (r:
        PointRangeIterator<T, S>) where T: PointStep<S>
        requires
            origin.add_req(*self),
        ensures
            Point::<T>::obeys_add_spec() ==> r.end() == origin.add_spec(*self),
            r.start() == origin,
            r.current() == origin,
            r.step() == step,
    {
        PointRangeIterator::new(origin, origin + *self, step)
    }

    /// The walk from `origin` up to, but without, the row and the column of
    /// `origin + self`, with the unit step.
    pub fn points(&self, origin: Point<T>) -> (r: PointRangeIterator<T, T>) where T: PointStep
        requires
            origin.add_req(*self),
        ensures
            Point::<T>::obeys_add_spec() ==> r.end() == origin.add_spec(*self),
            r.start() == origin,
            r.current() == origin,
            extent::<T, T>(r.step()) == (Vector { x: 1int, y: 1int }),
            r.valid(),
    {
        (origin..(origin + *self)).points()
    }

    /// The walk from `origin` up to and with the row and the column of
    /// `origin + self`, in steps of `step`.
    pub fn points_step_inclusive<S: Primitive>(&self, origin: Point<T>, step: Vector<S>) -> (r:
        PointRangeIteratorInclusive<T, S>) where T: PointStep<S>
        requires
            origin.add_req(*self),
        ensures
            Point::<T>::obeys_add_spec() ==> r.end() == origin.add_spec(*self),
            r.start() == origin,
            r.current() == origin,
            r.step() == step,
    {
        PointRangeIteratorInclusive::new(origin, origin + *self, step)
    }

    /// The walk from `origin` up to and with the row and the column of
    /// `origin + self`, with the unit step.
    pub fn points_inclusive(&self, origin: Point<T>) -> (r: PointRangeIteratorInclusive<
        T,
        T,
    >) where T: PointStep
        requires
            origin.add_req(*self),
        ensures
            Point::<T>::obeys_add_spec() ==> r.end() == origin.add_spec(*self),
            r.start() == origin,
            r.current() == origin,
            extent::<T, T>(r.step()) == (Vector { x: 1int, y: 1int }),
    {
        (origin..=(origin + *self)).points()
    }
}

impl<T: Primitive> Rect<T> where Point<T>: Add<Size<T>, Output = Point<T>> {
    /// The walk over the points of the rectangle, with the unit step.
    pub fn points(&self) -> (r: PointRangeIterator<T, T>) where T: PointStep
        requires
            self.has_corner(),
        ensures
            Point::<T>::obeys_add_spec() ==> r.end() == self.corner(),
            r.start() == self.origin,
            r.current() == self.origin,
            extent::<T, T>(r.step()) == (Vector { x: 1int, y: 1int }),
            r.valid(),
    {
        self.size().points(self.origin())
    }
}

} // verus!
