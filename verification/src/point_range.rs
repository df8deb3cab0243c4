//! Spans of points given by their bounds: containment, and walks with the
//! unit step.
use vstd::prelude::*;
use vstd::std_specs::cmp::{PartialOrdIs, PartialOrdSpec};
use core::ops::{Range, RangeInclusive};
use crate::coord::Primitive;
use crate::point::Point;
use crate::point_range_iterator::{
    extent, lemma_unit_walk_is_walkable, position, PointRangeIterator,
    PointRangeIteratorInclusive,
};
use crate::point_step::PointStep;
use crate::vector::Vector;
use crate::walk::{grid_points, lemma_grid_members, lemma_unit_grid_complete};

verus! {

/// One side of a span of points: a corner that belongs to the span, a corner
/// that does not, or no limit at all.
#[derive(Debug, Clone, Copy, PartialEq, Eq, Hash)]
pub enum PointBound<T: Primitive> {
    Included(Point<T>),
    Excluded(Point<T>),
    Unbounded,
}

/// Whether `point` satisfies the start bound on both axes.
pub open spec fn starts_before<T: Primitive + PartialOrd<U>, U: Primitive>(
    start: PointBound<T>,
    point: Point<U>,
) -> bool {
    match start {
        PointBound::Included(s) => s.x.is_le(&point.x) && s.y.is_le(&point.y),
        PointBound::Excluded(s) => s.x.is_lt(&point.x) && s.y.is_lt(&point.y),
        PointBound::Unbounded => true,
    }
}

/// Whether `point` satisfies the end bound on both axes.
pub open spec fn ends_after<T: Primitive, U: Primitive + PartialOrd<T>>(
    end: PointBound<T>,
    point: Point<U>,
) -> bool {
    match end {
        PointBound::Included(e) => point.x.is_le(&e.x) && point.y.is_le(&e.y),
        PointBound::Excluded(e) => point.x.is_lt(&e.x) && point.y.is_lt(&e.y),
        PointBound::Unbounded => true,
    }
}

/// Whether `point` lies between the two bounds: both axes satisfy both.
pub fn bounds_contain<T: Primitive + PartialOrd<U>, U: Primitive + PartialOrd<T>>(
    start: PointBound<T>,
    end: PointBound<T>,
    point: Point<U>,
) -> (r: bool)
    ensures
        T::obeys_partial_cmp_spec() && U::obeys_partial_cmp_spec() ==> r == (starts_before(
            start,
            point,
        ) && ends_after(end, point)),
{
    (match start {
        PointBound::Included(start) => start.x() <= point.x() && start.y() <= point.y(),
        PointBound::Excluded(start) => start.x() < point.x() && start.y() < point.y(),
        PointBound::Unbounded => true,
    }) && (match end {
        PointBound::Included(end) => point.x() <= end.x() && point.y() <= end.y(),
        PointBound::Excluded(end) => point.x() < end.x() && point.y() < end.y(),
        PointBound::Unbounded => true,
    })
}

/// Spans of points, limited or not on either side.
pub trait PointRangeBounds<T: Primitive> {
    /// Whether the span still has the bounds that it was made with. Only a
    /// standard inclusive range that an iteration has used up has not.
    spec fn is_settled(&self) -> bool;

    /// The bound at which the span starts.
    spec fn start_limit(&self) -> PointBound<T>;

    /// The bound at which the span ends.
    spec fn end_limit(&self) -> PointBound<T>;

    /// The bound at which the span starts, as a value.
    fn start_point_bound(&self) -> (r: PointBound<T>)
        ensures
            self.is_settled() ==> r == self.start_limit(),
    ;

    /// The bound at which the span ends, as a value.
    fn end_point_bound(&self) -> (r: PointBound<T>)
        ensures
            self.is_settled() ==> r == self.end_limit(),
    ;

    /// Whether `point` lies in the span.
    fn contains<U: Primitive + PartialOrd<T>>(&self, point: Point<U>) -> (r: bool) where
        T: PartialOrd<U>,

        ensures
            self.is_settled() && T::obeys_partial_cmp_spec() && U::obeys_partial_cmp_spec() ==> r
                == (starts_before(self.start_limit(), point) && ends_after(
                self.end_limit(),
                point,
            )),
    {
        bounds_contain(self.start_point_bound(), self.end_point_bound(), point)
    }
}

/// `start..end`: from `start`, which belongs to the span, to `end`, which
/// does not.
impl<T: Primitive> PointRangeBounds<T> for Range<Point<T>> {
    open spec fn is_settled(&self) -> bool {
        true
    }

    open spec fn start_limit(&self) -> PointBound<T> {
        PointBound::Included(self.start)
    }

    open spec fn end_limit(&self) -> PointBound<T> {
        PointBound::Excluded(self.end)
    }

    fn start_point_bound(&self) -> (r: PointBound<T>) {
        PointBound::Included(self.start)
    }

    fn end_point_bound(&self) -> (r: PointBound<T>) {
        PointBound::Excluded(self.end)
    }
}

/// `start..=end`: from `start` to `end`, which both belong to the span.
impl<T: Primitive> PointRangeBounds<T> for RangeInclusive<Point<T>> {
    open spec fn is_settled(&self) -> bool {
        !self@.exhausted
    }

    open spec fn start_limit(&self) -> PointBound<T> {
        PointBound::Included(self@.start)
    }

    open spec fn end_limit(&self) -> PointBound<T> {
        PointBound::Included(self@.end)
    }

    fn start_point_bound(&self) -> (r: PointBound<T>) {
        PointBound::Included(*self.start())
    }

    fn end_point_bound(&self) -> (r: PointBound<T>) {
        PointBound::Included(*self.end())
    }
}

/// A pair of bounds, the start first: any span, limited or not.
impl<T: Primitive> PointRangeBounds<T> for (PointBound<T>, PointBound<T>) {
    open spec fn is_settled(&self) -> bool {
        true
    }

    open spec fn start_limit(&self) -> PointBound<T> {
        self.0
    }

    open spec fn end_limit(&self) -> PointBound<T> {
        self.1
    }

    fn start_point_bound(&self) -> (r: PointBound<T>) {
        self.0
    }

    fn end_point_bound(&self) -> (r: PointBound<T>) {
        self.1
    }
}

/// `RangeInclusive::start` returns the lower bound that the range was made
/// with, as long as the range has not been iterated to its end.
pub assume_specification<Idx>[ RangeInclusive::<Idx>::start ](
    range: &RangeInclusive<Idx>,
) -> (r: &Idx)
    ensures
        !range@.exhausted ==> *r == range@.start,
;

/// `RangeInclusive::end` returns the upper bound that the range was made
/// with, as long as the range has not been iterated to its end.
pub assume_specification<Idx>[ RangeInclusive::<Idx>::end ](range: &RangeInclusive<Idx>) -> (r:
    &Idx)
    ensures
        !range@.exhausted ==> *r == range@.end,
;

/// Spans whose points can be walked in row-major order with the unit step.
pub trait PointRange<T: Primitive> {
    type PointIterator;

    /// Whether `walk` is the walk over this span from its start, with the
    /// unit step.
    spec fn gives(&self, walk: Self::PointIterator) -> bool;

    /// The walk over the points of the span.
    fn points(&self) -> (r: Self::PointIterator)
        ensures
            self.gives(r),
    ;
}

/// `start..end` is walked up to, but without, the row and the column of
/// `end`. Such a walk can always go on to its end.
impl<T: PointStep> PointRange<T> for Range<Point<T>> {
    type PointIterator = PointRangeIterator<T, T>;

    open spec fn gives(&self, walk: PointRangeIterator<T, T>) -> bool {
        &&& walk.start() == self.start
        &&& walk.end() == self.end
        &&& walk.current() == self.start
        &&& extent::<T, T>(walk.step()) == (Vector { x: 1int, y: 1int })
        &&& walk.valid()
    }

    fn points(&self) -> (r: PointRangeIterator<T, T>) {
        let step = Vector::new(T::one(), T::one());
        proof {
            lemma_unit_walk_is_walkable(self.start, self.end, step);
        }
        PointRangeIterator::new(self.start, self.end, step)
    }
}

/// `start..=end` is walked up to and with the row and the column of `end`.
/// A range that an iteration has used up no longer tells its bounds.
impl<T: PointStep> PointRange<T> for RangeInclusive<Point<T>> {
    type PointIterator = PointRangeIteratorInclusive<T, T>;

    open spec fn gives(&self, walk: PointRangeIteratorInclusive<T, T>) -> bool {
        &&& !self@.exhausted ==> {
            &&& walk.start() == self@.start
            &&& walk.end() == self@.end
            &&& walk.current() == self@.start
        }
        &&& walk.current() == walk.start()
        &&& extent::<T, T>(walk.step()) == (Vector { x: 1int, y: 1int })
    }

    fn points(&self) -> (r: PointRangeIteratorInclusive<T, T>) {
        PointRangeIteratorInclusive::new(
            *self.start(),
            *self.end(),
            Vector::new(T::one(), T::one()),
        )
    }
}

/// The walk over `start..end` with the unit step gives exactly the points
/// that the span contains.
pub proof fn lemma_points_are_the_contained<T: PointStep>(span: Range<Point<T>>, p: Point<T>)
    ensures
        grid_points(
            span.start.x.rank(),
            span.end.x.rank(),
            1,
            span.start.y.rank(),
            span.end.y.rank(),
            1,
            false,
        ).contains(position::<T, T>(p)) <==> starts_before(span.start_limit(), p) && ends_after(
            span.end_limit(),
            p,
        ),
{
    let grid = grid_points(
        span.start.x.rank(),
        span.end.x.rank(),
        1,
        span.start.y.rank(),
        span.end.y.rank(),
        1,
        false,
    );
    let place = position::<T, T>(p);
    T::lemma_order(span.start.x, p.x);
    T::lemma_order(span.start.y, p.y);
    T::lemma_order(p.x, span.end.x);
    T::lemma_order(p.y, span.end.y);
    if starts_before(span.start_limit(), p) && ends_after(span.end_limit(), p) {
        lemma_unit_grid_complete(
            span.start.x.rank(),
            span.end.x.rank(),
            span.start.y.rank(),
            span.end.y.rank(),
            place.x,
            place.y,
        );
    }
    if grid.contains(place) {
        lemma_grid_members(
            span.start.x.rank(),
            span.end.x.rank(),
            1,
            span.start.y.rank(),
            span.end.y.rank(),
            1,
            false,
        );
        let k = choose|k: int| 0 <= k < grid.len() && grid[k] == place;
        assert(grid[k] == place);
    }
}

} // verus!
