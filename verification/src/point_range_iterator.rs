//! Cursors that walk a span of points in row-major order.
use vstd::prelude::*;
use crate::axis::{Axis, AxisKeyed};
use crate::coord::Primitive;
use crate::point::Point;
use crate::point_step::PointStep;
use crate::vector::Vector;
use crate::walk::{
    grid_points, landing, lemma_count, lemma_empty_rows, lemma_landing_bounds, lemma_landing_unit,
    lemma_remaining_at_start, overshoot, room, row_points, within, Walk,
};

verus! {

/// A point's place in the integer plane.
pub open spec fn position<S: Primitive, T: PointStep<S>>(p: Point<T>) -> Point<int> {
    Point { x: p.x.rank(), y: p.y.rank() }
}

/// A step's extent in the integer plane.
pub open spec fn extent<S: Primitive, T: PointStep<S>>(step: Vector<S>) -> Vector<int> {
    Vector { x: T::stride(step.x), y: T::stride(step.y) }
}

/// The walk that the four values of a cursor stand for.
pub open spec fn walk_of<S: Primitive, T: PointStep<S>>(
    start: Point<T>,
    end: Point<T>,
    step: Vector<S>,
    current: Point<T>,
    inclusive: bool,
) -> Walk {
    Walk {
        start: position::<S, T>(start),
        end: position::<S, T>(end),
        step: extent::<S, T>(step),
        current: position::<S, T>(current),
        inclusive,
    }
}

/// Whether `v` lies before `bound`.
fn in_bound<S: Primitive, T: PointStep<S>>(v: T, bound: T, inclusive: bool) -> (r: bool)
    ensures
        r == within(v.rank(), bound.rank(), inclusive),
{
    proof {
        T::lemma_order(v, bound);
    }
    if inclusive {
        v <= bound
    } else {
        v < bound
    }
}

/// Whether a cursor that starts at `v` can come to rest: whether the first
/// position that it takes outside the bound is representable.
fn comes_to_rest<S: Primitive, T: PointStep<S>>(v: T, bound: T, step: S, inclusive: bool) -> (r:
    bool)
    requires
        T::stride(step) > 0,
    ensures
        r == T::representable(landing(v.rank(), bound.rank(), T::stride(step), inclusive)),
{
    let mut at = v;
    while in_bound(at, bound, inclusive)
        invariant
            T::stride(step) > 0,
            landing(at.rank(), bound.rank(), T::stride(step), inclusive) == landing(
                v.rank(),
                bound.rank(),
                T::stride(step),
                inclusive,
            ),
        decreases room(at.rank(), bound.rank()),
    {
        proof {
            T::lemma_advance(at, step);
            lemma_landing_bounds(at.rank(), bound.rank(), T::stride(step), inclusive);
            T::lemma_representable(
                at,
                at,
                at.rank(),
                at.rank() + T::stride(step),
                landing(at.rank(), bound.rank(), T::stride(step), inclusive),
            );
        }
        match at.checked_step(step) {
            Some(on) => {
                at = on;
            },
            None => {
                return false;
            },
        }
    }
    proof {
        T::lemma_representable(at, at, 0, 0, 0);
    }
    true
}

/// Whether a column cursor that starts at `v` needs nothing, or has a step
/// that moves forward and can come to rest.
fn row_is_walkable<S: Primitive, T: PointStep<S>>(v: T, bound: T, step: S, inclusive: bool) -> (r:
    bool)
    ensures
        r == (within(v.rank(), bound.rank(), inclusive) ==> T::stride(step) > 0
            && T::representable(
            landing(v.rank(), bound.rank(), T::stride(step), inclusive),
        )),
{
    !in_bound(v, bound, inclusive) || (T::moves_forward(step) && comes_to_rest(
        v,
        bound,
        step,
        inclusive,
    ))
}

/// Whether the walk that the four values stand for can go on to its end.
pub fn is_walkable<S: Primitive, T: PointStep<S>>(
    start: Point<T>,
    end: Point<T>,
    step: Vector<S>,
    current: Point<T>,
    inclusive: bool,
) -> (r: bool)
    ensures
        r == walk_of(start, end, step, current, inclusive).valid(|v: int| T::representable(v)),
{
    !in_bound(current.y(), end.y(), inclusive) || (T::moves_forward(step.y()) && comes_to_rest(
        current.y(),
        end.y(),
        step.y(),
        inclusive,
    ) && row_is_walkable(start.x(), end.x(), step.x(), inclusive) && row_is_walkable(
        current.x(),
        end.x(),
        step.x(),
        inclusive,
    ))
}

/// Where a call of `next` leaves the cursor. After a point it stands one
/// column beyond that point. When no point remains it has come to rest
/// past the last row, at the first column if it had rows to pass.
pub open spec fn cursor_after<S: Primitive, T: PointStep<S>>(
    start: Point<T>,
    end: Point<T>,
    step: Vector<S>,
    before: Point<T>,
    inclusive: bool,
    given: Option<Point<T>>,
    after: Point<T>,
) -> bool {
    match given {
        Some(p) => position::<S, T>(after) == (Point {
            x: p.x.rank() + T::stride(step.x),
            y: p.y.rank(),
        }),
        None => {
            &&& after.y.rank() == landing(
                before.y.rank(),
                end.y.rank(),
                T::stride(step.y),
                inclusive,
            )
            &&& after.x == if within(before.y.rank(), end.y.rank(), inclusive) {
                start.x
            } else {
                before.x
            }
        },
    }
}

/// Hands out the point under the cursor and moves the cursor one column on;
/// at the end of a row the cursor first goes to the start of the next
/// non-empty row. Returns `None`, and leaves the cursor past the last row,
/// when no point remains.
pub fn next<S: Primitive, T: PointStep<S>>(
    start: Point<T>,
    end: Point<T>,
    step: Vector<S>,
    current: &mut Point<T>,
    inclusive: bool,
) -> (r: Option<Point<T>>)
    requires
        walk_of(start, end, step, *old(current), inclusive).valid(|v: int| T::representable(v)),
    ensures
        walk_of(start, end, step, *final(current), inclusive).valid(|v: int| T::representable(v)),
        ({
            let before = walk_of(start, end, step, *old(current), inclusive).remaining();
            let after = walk_of(start, end, step, *final(current), inclusive).remaining();
            match r {
                Some(p) => before.len() > 0 && position::<S, T>(p) == before[0] && after
                    == before.skip(1),
                None => before.len() == 0 && after.len() == 0,
            }
        }),
        cursor_after(start, end, step, *old(current), inclusive, r, *final(current)),
{
    let ghost fits = |v: int| T::representable(v);
    let ghost before = walk_of(start, end, step, *current, inclusive).remaining();
    while in_bound(current.y(), end.y(), inclusive)
        invariant
            walk_of(start, end, step, *current, inclusive).valid(fits),
            walk_of(start, end, step, *current, inclusive).remaining() == before,
            walk_of(start, end, step, *old(current), inclusive).remaining() == before,
            fits == (|v: int| T::representable(v)),
            landing(current.y.rank(), end.y.rank(), T::stride(step.y), inclusive) == landing(
                old(current).y.rank(),
                end.y.rank(),
                T::stride(step.y),
                inclusive,
            ),
            *current == *old(current) || (current.x == start.x && within(
                old(current).y.rank(),
                end.y.rank(),
                inclusive,
            )),
        decreases room(current.y.rank(), end.y.rank()),
    {
        let ghost w = walk_of(start, end, step, *current, inclusive);
        proof {
            T::lemma_representable(current.x, current.y, 0, 0, 0);
        }
        if in_bound(current.x(), end.x(), inclusive) {
            let result = Some(*current);
            proof {
                T::lemma_advance(current.x, step.x);
                lemma_landing_bounds(w.current.x, w.end.x, w.step.x, inclusive);
                T::lemma_representable(
                    current.x,
                    current.x,
                    w.current.x,
                    w.current.x + w.step.x,
                    landing(w.current.x, w.end.x, w.step.x, inclusive),
                );
                assert(fits(landing(w.current.x, w.end.x, w.step.x, inclusive)));
            }
            *current = current.add(Axis::X, step.x());
            proof {
                let rest = row_points(
                    w.current.x + w.step.x,
                    w.end.x,
                    w.step.x,
                    w.current.y,
                    inclusive,
                );
                let below = grid_points(
                    w.start.x,
                    w.end.x,
                    w.step.x,
                    w.current.y + w.step.y,
                    w.end.y,
                    w.step.y,
                    inclusive,
                );
                assert(before == (seq![w.current] + rest) + below);
                assert(before.skip(1) =~= rest + below);
            }
            return result;
        }
        proof {
            T::lemma_advance(current.y, step.y);
            lemma_landing_bounds(w.current.y, w.end.y, w.step.y, inclusive);
            T::lemma_representable(
                current.y,
                current.y,
                w.current.y,
                w.current.y + w.step.y,
                landing(w.current.y, w.end.y, w.step.y, inclusive),
            );
            assert(fits(landing(w.current.y, w.end.y, w.step.y, inclusive)));
            assert(row_points(w.current.x, w.end.x, w.step.x, w.current.y, inclusive)
                =~= Seq::empty());
        }
        *current = Point::new(start.x(), current.y() + step.y());
    }
    None
}

/// A walk at its start can go on to its end if its steps move forward where
/// the span has points, and one step beyond the last position within each
/// bound is representable.
pub proof fn lemma_walkable_at_start<S: Primitive, T: PointStep<S>>(
    start: Point<T>,
    end: Point<T>,
    step: Vector<S>,
    inclusive: bool,
)
    requires
        ({
            let w = walk_of(start, end, step, start, inclusive);
            within(w.start.y, w.end.y, inclusive) ==> {
                &&& w.step.y > 0
                &&& T::representable(overshoot(w.end.y, w.step.y, inclusive))
                &&& within(w.start.x, w.end.x, inclusive) ==> {
                    &&& w.step.x > 0
                    &&& T::representable(overshoot(w.end.x, w.step.x, inclusive))
                }
            }
        }),
    ensures
        walk_of(start, end, step, start, inclusive).valid(|v: int| T::representable(v)),
{
    let w = walk_of(start, end, step, start, inclusive);
    let fits = |v: int| T::representable(v);
    if within(w.start.y, w.end.y, inclusive) {
        lemma_landing_bounds(w.start.y, w.end.y, w.step.y, inclusive);
        T::lemma_representable(
            start.y,
            start.y,
            w.start.y,
            landing(w.start.y, w.end.y, w.step.y, inclusive),
            overshoot(w.end.y, w.step.y, inclusive),
        );
        assert(fits(landing(w.start.y, w.end.y, w.step.y, inclusive)));
        if within(w.start.x, w.end.x, inclusive) {
            lemma_landing_bounds(w.start.x, w.end.x, w.step.x, inclusive);
            T::lemma_representable(
                start.x,
                start.x,
                w.start.x,
                landing(w.start.x, w.end.x, w.step.x, inclusive),
                overshoot(w.end.x, w.step.x, inclusive),
            );
            assert(fits(landing(w.start.x, w.end.x, w.step.x, inclusive)));
        }
    }
}

/// A walk with the unit step up to an exclusive end can always go on to its
/// end: its cursor comes to rest at the end's own row and column.
pub proof fn lemma_unit_walk_is_walkable<S: Primitive, T: PointStep<S>>(
    start: Point<T>,
    end: Point<T>,
    step: Vector<S>,
)
    requires
        extent::<S, T>(step) == (Vector { x: 1int, y: 1int }),
    ensures
        walk_of(start, end, step, start, false).valid(|v: int| T::representable(v)),
{
    let fits = |v: int| T::representable(v);
    lemma_landing_unit(start.x.rank(), end.x.rank());
    lemma_landing_unit(start.y.rank(), end.y.rank());
    T::lemma_representable(end.x, end.x, 0, 0, 0);
    T::lemma_representable(end.y, end.y, 0, 0, 0);
    assert(fits(end.x.rank()));
    assert(fits(end.y.rank()));
}

/// All points that the walk still has to give, in order.
pub fn remaining_points<S: Primitive, T: PointStep<S>>(
    start: Point<T>,
    end: Point<T>,
    step: Vector<S>,
    current: Point<T>,
    inclusive: bool,
) -> (points: Vec<Point<T>>)
    requires
        walk_of(start, end, step, current, inclusive).valid(|v: int| T::representable(v)),
    ensures
        points@.map_values(|p: Point<T>| position::<S, T>(p)) == walk_of(
            start,
            end,
            step,
            current,
            inclusive,
        ).remaining(),
{
    let ghost all = walk_of(start, end, step, current, inclusive).remaining();
    let mut cursor = current;
    let mut points: Vec<Point<T>> = Vec::new();
    loop
        invariant
            walk_of(start, end, step, cursor, inclusive).valid(|v: int| T::representable(v)),
            points@.map_values(|p: Point<T>| position::<S, T>(p)) + walk_of(
                start,
                end,
                step,
                cursor,
                inclusive,
            ).remaining() == all,
        ensures
            points@.map_values(|p: Point<T>| position::<S, T>(p)) == all,
        decreases walk_of(start, end, step, cursor, inclusive).remaining().len(),
    {
        let ghost seen = points@;
        let ghost rest = walk_of(start, end, step, cursor, inclusive).remaining();
        match next(start, end, step, &mut cursor, inclusive) {
            Some(p) => {
                points.push(p);
                proof {
                    let place = |p: Point<T>| position::<S, T>(p);
                    assert(points@.map_values(place) =~= seen.map_values(place) + seq![rest[0]]);
                    assert(seq![rest[0]] + rest.skip(1) =~= rest);
                }
            },
            None => {
                proof {
                    assert(rest =~= Seq::empty());
                }
                break ;
            },
        }
    }
    points
}

/// A walk over the points of a span in row-major order, in steps of `step`,
/// up to but without the row and the column of `end`.
#[derive(Debug, Clone, PartialEq, Eq, Hash)]
pub struct PointRangeIterator<T: Primitive, S: Primitive> {
    start: Point<T>,
    end: Point<T>,
    step: Vector<S>,
    current: Point<T>,
}

impl<T: Primitive, S: Primitive> PointRangeIterator<T, S> {
    /// The first corner of the span, where the walk begins.
    pub closed spec fn start(self) -> Point<T> {
        self.start
    }

    /// The last corner of the span.
    pub closed spec fn end(self) -> Point<T> {
        self.end
    }

    /// The step between columns (`x`) and between rows (`y`).
    pub closed spec fn step(self) -> Vector<S> {
        self.step
    }

    /// The cursor: the next point to hand out, if it lies in the span.
    pub closed spec fn current(self) -> Point<T> {
        self.current
    }

    /// The walk over the span from `start` to `end`, with its cursor at
    /// `start`.
    pub fn new(start: Point<T>, end: Point<T>, step: Vector<S>) -> (r: Self)
        ensures
            r.start() == start,
            r.end() == end,
            r.step() == step,
            r.current() == start,
    {
        Self { start, end, step, current: start }
    }
}

impl<S: Primitive, T: PointStep<S>> PointRangeIterator<T, S> {
    /// The walk in the integer plane.
    pub open spec fn walk(self) -> Walk {
        walk_of(self.start(), self.end(), self.step(), self.current(), false)
    }

    /// Whether the walk can go on to its end: the steps move forward where
    /// points are left, and the cursor comes to rest at positions that are
    /// representable in `T`.
    pub open spec fn valid(self) -> bool {
        self.walk().valid(|v: int| T::representable(v))
    }

    /// Whether the walk can go on to its end.
    pub fn is_valid(&self) -> (r: bool)
        ensures
            r == self.valid(),
    {
        is_walkable(self.start, self.end, self.step, self.current, false)
    }

    /// The next point of the walk, or `None` when the walk is over.
    pub fn next(&mut self) -> (r: Option<Point<T>>)
        requires
            old(self).valid(),
        ensures
            final(self).valid(),
            final(self).start() == old(self).start(),
            final(self).end() == old(self).end(),
            final(self).step() == old(self).step(),
            match r {
                Some(p) => {
                    &&& old(self).walk().remaining().len() > 0
                    &&& position::<S, T>(p) == old(self).walk().remaining()[0]
                    &&& final(self).walk().remaining() == old(self).walk().remaining().skip(1)
                },
                None => {
                    &&& old(self).walk().remaining().len() == 0
                    &&& final(self).walk().remaining().len() == 0
                },
            },
            cursor_after(
                old(self).start(),
                old(self).end(),
                old(self).step(),
                old(self).current(),
                false,
                r,
                final(self).current(),
            ),
    {
        self::next(self.start, self.end, self.step, &mut self.current, false)
    }

    /// All points that the walk still has to give, in order.
    pub fn to_vec(self) -> (points: Vec<Point<T>>)
        requires
            self.valid(),
        ensures
            points@.map_values(|p: Point<T>| position::<S, T>(p)) == self.walk().remaining(),
    {
        remaining_points(self.start, self.end, self.step, self.current, false)
    }
}

impl<S: Primitive, T: PointStep<S>> PointRangeIterator<T, S> {
    /// A walk from the start of a span of zero width gives no point,
    /// whatever its steps and however many rows the span has.
    pub proof fn lemma_zero_width_is_empty(self)
        requires
            self.current() == self.start(),
            self.start().x == self.end().x,
        ensures
            self.walk().remaining().len() == 0,
    {
        let w = self.walk();
        lemma_empty_rows(
            w.start.x,
            w.end.x,
            w.step.x,
            w.current.y + w.step.y,
            w.end.y,
            w.step.y,
            false,
        );
    }

    /// A walk with the unit step from the start of a span gives as many
    /// points as the span is wide times as it is high.
    pub proof fn lemma_unit_count(self)
        requires
            self.current() == self.start(),
            extent::<S, T>(self.step()) == (Vector { x: 1int, y: 1int }),
            self.start().x.rank() <= self.end().x.rank(),
            self.start().y.rank() <= self.end().y.rank(),
        ensures
            self.walk().remaining().len() == (self.end().x.rank() - self.start().x.rank()) * (
            self.end().y.rank() - self.start().y.rank()),
    {
        let w = self.walk();
        lemma_remaining_at_start(w);
        lemma_count(w.start.x, w.end.x, w.start.y, w.end.y);
    }
}

/// A walk over the points of a span in row-major order, in steps of `step`,
/// up to and with the row and the column of `end`.
#[derive(Debug, Clone, PartialEq, Eq, Hash)]
pub struct PointRangeIteratorInclusive<T: Primitive, S: Primitive> {
    start: Point<T>,
    end: Point<T>,
    step: Vector<S>,
    current: Point<T>,
}

impl<T: Primitive, S: Primitive> PointRangeIteratorInclusive<T, S> {
    /// The first corner of the span, where the walk begins.
    pub closed spec fn start(self) -> Point<T> {
        self.start
    }

    /// The last corner of the span.
    pub closed spec fn end(self) -> Point<T> {
        self.end
    }

    /// The step between columns (`x`) and between rows (`y`).
    pub closed spec fn step(self) -> Vector<S> {
        self.step
    }

    /// The cursor: the next point to hand out, if it lies in the span.
    pub closed spec fn current(self) -> Point<T> {
        self.current
    }

    /// The walk over the span from `start` to `end`, with its cursor at
    /// `start`.
    pub fn new(start: Point<T>, end: Point<T>, step: Vector<S>) -> (r: Self)
        ensures
            r.start() == start,
            r.end() == end,
            r.step() == step,
            r.current() == start,
    {
        Self { start, end, step, current: start }
    }
}

impl<S: Primitive, T: PointStep<S>> PointRangeIteratorInclusive<T, S> {
    /// The walk in the integer plane.
    pub open spec fn walk(self) -> Walk {
        walk_of(self.start(), self.end(), self.step(), self.current(), true)
    }

    /// Whether the walk can go on to its end: the steps move forward where
    /// points are left, and the cursor comes to rest at positions that are
    /// representable in `T`.
    pub open spec fn valid(self) -> bool {
        self.walk().valid(|v: int| T::representable(v))
    }

    /// Whether the walk can go on to its end.
    pub fn is_valid(&self) -> (r: bool)
        ensures
            r == self.valid(),
    {
        is_walkable(self.start, self.end, self.step, self.current, true)
    }

    /// The next point of the walk, or `None` when the walk is over.
    pub fn next(&mut self) -> (r: Option<Point<T>>)
        requires
            old(self).valid(),
        ensures
            final(self).valid(),
            final(self).start() == old(self).start(),
            final(self).end() == old(self).end(),
            final(self).step() == old(self).step(),
            match r {
                Some(p) => {
                    &&& old(self).walk().remaining().len() > 0
                    &&& position::<S, T>(p) == old(self).walk().remaining()[0]
                    &&& final(self).walk().remaining() == old(self).walk().remaining().skip(1)
                },
                None => {
                    &&& old(self).walk().remaining().len() == 0
                    &&& final(self).walk().remaining().len() == 0
                },
            },
            cursor_after(
                old(self).start(),
                old(self).end(),
                old(self).step(),
                old(self).current(),
                true,
                r,
                final(self).current(),
            ),
    {
        self::next(self.start, self.end, self.step, &mut self.current, true)
    }

    /// All points that the walk still has to give, in order.
    pub fn to_vec(self) -> (points: Vec<Point<T>>)
        requires
            self.valid(),
        ensures
            points@.map_values(|p: Point<T>| position::<S, T>(p)) == self.walk().remaining(),
    {
        remaining_points(self.start, self.end, self.step, self.current, true)
    }
}

} // verus!
