//! The mathematics of a walk over a span of points: which points it gives,
//! in which order, how many, and when it can be carried out.
use vstd::prelude::*;
use vstd::arithmetic::div_mod::{
    lemma_basic_div, lemma_div_minus_one, lemma_fundamental_div_mod_converse,
    lemma_mod_sub_multiples_vanish, lemma_small_mod,
};
use crate::point::Point;
use crate::vector::Vector;

verus! {

/// Whether `v` lies before the bound: strictly for an exclusive bound, or
/// up to and including it for an inclusive one.
pub open spec fn within(v: int, bound: int, inclusive: bool) -> bool {
    if inclusive {
        v <= bound
    } else {
        v < bound
    }
}

/// How many positions lie from `v` up to and including `bound`.
pub open spec fn room(v: int, bound: int) -> int {
    if v <= bound {
        bound - v + 1
    } else {
        0
    }
}

/// Where a cursor comes to rest that starts at `v` and takes steps of
/// `stride` for as long as it is within the bound: the first of its
/// positions that is not within the bound.
pub open spec fn landing(v: int, bound: int, stride: int, inclusive: bool) -> int
    decreases room(v, bound),
{
    if stride > 0 && within(v, bound, inclusive) {
        landing(v + stride, bound, stride, inclusive)
    } else {
        v
    }
}

/// How many positions a cursor takes within the bound when it starts at
/// `v` and takes steps of `stride`.
pub open spec fn count_within(v: int, bound: int, stride: int, inclusive: bool) -> nat
    decreases room(v, bound),
{
    if stride > 0 && within(v, bound, inclusive) {
        1 + count_within(v + stride, bound, stride, inclusive)
    } else {
        0
    }
}

/// The furthest position at which a cursor can come to rest: one step of
/// `stride` beyond the last position within the bound.
pub open spec fn overshoot(bound: int, stride: int, inclusive: bool) -> int {
    if inclusive {
        bound + stride
    } else {
        bound + stride - 1
    }
}

/// The points of the row `y` from column `x` on, in increasing `x`.
pub open spec fn row_points(x: int, end_x: int, dx: int, y: int, inclusive: bool) -> Seq<
    Point<int>,
>
    decreases room(x, end_x),
{
    if dx > 0 && within(x, end_x, inclusive) {
        seq![Point { x, y }] + row_points(x + dx, end_x, dx, y, inclusive)
    } else {
        Seq::empty()
    }
}

/// The points of all rows from row `y` on, each row from column `start_x`:
/// row-major order.
pub open spec fn grid_points(
    start_x: int,
    end_x: int,
    dx: int,
    y: int,
    end_y: int,
    dy: int,
    inclusive: bool,
) -> Seq<Point<int>>
    decreases room(y, end_y),
{
    if dy > 0 && within(y, end_y, inclusive) {
        row_points(start_x, end_x, dx, y, inclusive) + grid_points(
            start_x,
            end_x,
            dx,
            y + dy,
            end_y,
            dy,
            inclusive,
        )
    } else {
        Seq::empty()
    }
}

/// A cursor comes to rest at or beyond its start, and overshoots the bound by
/// less than one step.
pub proof fn lemma_landing_bounds(v: int, bound: int, stride: int, inclusive: bool)
    ensures
        v <= landing(v, bound, stride, inclusive),
        stride > 0 && within(v, bound, inclusive) ==> v + stride <= landing(
            v,
            bound,
            stride,
            inclusive,
        ) <= overshoot(bound, stride, inclusive),
        !(stride > 0 && within(v, bound, inclusive)) ==> landing(v, bound, stride, inclusive) == v,
    decreases room(v, bound),
{
    if stride > 0 && within(v, bound, inclusive) {
        lemma_landing_bounds(v + stride, bound, stride, inclusive);
    }
}

/// With the unit step and an exclusive bound, a cursor that starts before
/// the bound comes to rest at the bound itself.
pub proof fn lemma_landing_unit(v: int, bound: int)
    ensures
        landing(v, bound, 1, false) == if v <= bound {
            bound
        } else {
            v
        },
    decreases room(v, bound),
{
    if v < bound {
        lemma_landing_unit(v + 1, bound);
    }
}

/// With the unit step and an exclusive bound, a cursor takes every position
/// from its start to just before the bound.
pub proof fn lemma_count_within_unit(v: int, bound: int)
    requires
        v <= bound,
    ensures
        count_within(v, bound, 1, false) == bound - v,
    decreases bound - v,
{
    if v < bound {
        lemma_count_within_unit(v + 1, bound);
    }
}

/// The shape of a row: it has one point for each position that the column
/// cursor takes, and its `i`-th point lies `i` steps from the first column.
pub proof fn lemma_row_shape(x: int, end_x: int, dx: int, y: int, inclusive: bool)
    ensures
        row_points(x, end_x, dx, y, inclusive).len() == count_within(x, end_x, dx, inclusive),
        forall|i: int|
            0 <= i < row_points(x, end_x, dx, y, inclusive).len() ==> #[trigger] row_points(
                x,
                end_x,
                dx,
                y,
                inclusive,
            )[i] == (Point { x: x + i * dx, y }),
    decreases room(x, end_x),
{
    if dx > 0 && within(x, end_x, inclusive) {
        lemma_row_shape(x + dx, end_x, dx, y, inclusive);
        let row = row_points(x, end_x, dx, y, inclusive);
        let rest = row_points(x + dx, end_x, dx, y, inclusive);
        assert forall|i: int| 0 <= i < row.len() implies #[trigger] row[i] == (Point {
            x: x + i * dx,
            y,
        }) by {
            if i > 0 {
                assert(row[i] == rest[i - 1]);
                assert(x + dx + (i - 1) * dx == x + i * dx) by (nonlinear_arith);
            }
        }
    }
}

/// The shape of a span: it has as many points as columns times rows, and
/// its `k`-th point lies in row `k / columns` and column `k % columns`.
pub proof fn lemma_grid_shape(
    start_x: int,
    end_x: int,
    dx: int,
    y: int,
    end_y: int,
    dy: int,
    inclusive: bool,
)
    ensures
        ({
            let grid = grid_points(start_x, end_x, dx, y, end_y, dy, inclusive);
            let columns = count_within(start_x, end_x, dx, inclusive) as int;
            let rows = count_within(y, end_y, dy, inclusive) as int;
            &&& grid.len() == columns * rows
            &&& forall|k: int|
                0 <= k < grid.len() ==> #[trigger] grid[k] == (Point {
                    x: start_x + (k % columns) * dx,
                    y: y + (k / columns) * dy,
                })
        }),
    decreases room(y, end_y),
{
    let n = count_within(start_x, end_x, dx, inclusive) as int;
    let grid = grid_points(start_x, end_x, dx, y, end_y, dy, inclusive);
    if dy > 0 && within(y, end_y, inclusive) {
        let row = row_points(start_x, end_x, dx, y, inclusive);
        let below = grid_points(start_x, end_x, dx, y + dy, end_y, dy, inclusive);
        let rows_below = count_within(y + dy, end_y, dy, inclusive) as int;
        lemma_row_shape(start_x, end_x, dx, y, inclusive);
        lemma_grid_shape(start_x, end_x, dx, y + dy, end_y, dy, inclusive);
        assert(n + n * rows_below == n * (1 + rows_below)) by (nonlinear_arith);
        assert forall|k: int| 0 <= k < grid.len() implies #[trigger] grid[k] == (Point {
            x: start_x + (k % n) * dx,
            y: y + (k / n) * dy,
        }) by {
            if k < n {
                lemma_small_mod(k as nat, n as nat);
                lemma_basic_div(k, n);
                assert(grid[k] == row[k]);
                assert((k / n) * dy == 0) by (nonlinear_arith)
                    requires
                        k / n == 0,
                ;
            } else {
                assert(grid[k] == below[k - n]);
                lemma_mod_sub_multiples_vanish(k, n);
                lemma_div_minus_one(k, n);
                assert((k - n) % n == k % n);
                assert((k - n) / n == k / n - 1);
                assert(y + dy + (k / n - 1) * dy == y + (k / n) * dy) by (nonlinear_arith);
            }
        }
    } else {
        assert(n * 0 == 0) by (nonlinear_arith);
    }
}

/// Every point of a row lies in that row, at or beyond the first column and
/// within the column bound.
pub proof fn lemma_row_members(x: int, end_x: int, dx: int, y: int, inclusive: bool)
    ensures
        forall|i: int|
            0 <= i < row_points(x, end_x, dx, y, inclusive).len() ==> {
                let p = #[trigger] row_points(x, end_x, dx, y, inclusive)[i];
                p.y == y && x <= p.x && within(p.x, end_x, inclusive)
            },
    decreases room(x, end_x),
{
    if dx > 0 && within(x, end_x, inclusive) {
        lemma_row_members(x + dx, end_x, dx, y, inclusive);
        let row = row_points(x, end_x, dx, y, inclusive);
        let rest = row_points(x + dx, end_x, dx, y, inclusive);
        assert forall|i: int| 0 <= i < row.len() implies ({
            let p = #[trigger] row[i];
            p.y == y && x <= p.x && within(p.x, end_x, inclusive)
        }) by {
            if i > 0 {
                assert(row[i] == rest[i - 1]);
            }
        }
    }
}

/// Every point of a span lies at or beyond the first row and the first
/// column, and within both bounds.
pub proof fn lemma_grid_members(
    start_x: int,
    end_x: int,
    dx: int,
    y: int,
    end_y: int,
    dy: int,
    inclusive: bool,
)
    ensures
        forall|k: int|
            0 <= k < grid_points(start_x, end_x, dx, y, end_y, dy, inclusive).len() ==> {
                let p = #[trigger] grid_points(start_x, end_x, dx, y, end_y, dy, inclusive)[k];
                &&& start_x <= p.x
                &&& within(p.x, end_x, inclusive)
                &&& y <= p.y
                &&& within(p.y, end_y, inclusive)
            },
    decreases room(y, end_y),
{
    if dy > 0 && within(y, end_y, inclusive) {
        lemma_row_members(start_x, end_x, dx, y, inclusive);
        lemma_grid_members(start_x, end_x, dx, y + dy, end_y, dy, inclusive);
        let grid = grid_points(start_x, end_x, dx, y, end_y, dy, inclusive);
        let row = row_points(start_x, end_x, dx, y, inclusive);
        let below = grid_points(start_x, end_x, dx, y + dy, end_y, dy, inclusive);
        assert forall|k: int| 0 <= k < grid.len() implies ({
            let p = #[trigger] grid[k];
            &&& start_x <= p.x
            &&& within(p.x, end_x, inclusive)
            &&& y <= p.y
            &&& within(p.y, end_y, inclusive)
        }) by {
            if k < row.len() {
                assert(grid[k] == row[k]);
            } else {
                assert(grid[k] == below[k - row.len()]);
            }
        }
    }
}

/// With the unit step and exclusive bounds, a span gives every point that
/// lies at or beyond its start and before its end on both axes.
pub proof fn lemma_unit_grid_complete(
    start_x: int,
    end_x: int,
    start_y: int,
    end_y: int,
    x: int,
    y: int,
)
    requires
        start_x <= x < end_x,
        start_y <= y < end_y,
    ensures
        grid_points(start_x, end_x, 1, start_y, end_y, 1, false).contains(Point { x, y }),
{
    let grid = grid_points(start_x, end_x, 1, start_y, end_y, 1, false);
    let n = end_x - start_x;
    let k = (y - start_y) * n + (x - start_x);
    lemma_grid_shape(start_x, end_x, 1, start_y, end_y, 1, false);
    lemma_count_within_unit(start_x, end_x);
    lemma_count_within_unit(start_y, end_y);
    lemma_fundamental_div_mod_converse(k, n, y - start_y, x - start_x);
    assert(0 <= k < n * (end_y - start_y)) by (nonlinear_arith)
        requires
            k == (y - start_y) * n + (x - start_x),
            0 <= x - start_x < n,
            0 <= y - start_y < end_y - start_y,
    ;
    assert(grid[k] == Point { x, y });
}

/// A row that starts outside its bound has no points.
pub proof fn lemma_empty_row(x: int, end_x: int, dx: int, y: int, inclusive: bool)
    requires
        !within(x, end_x, inclusive),
    ensures
        row_points(x, end_x, dx, y, inclusive) == Seq::<Point<int>>::empty(),
{
}

/// A span whose rows start outside the column bound has no points at all,
/// however many rows it has.
pub proof fn lemma_empty_rows(
    start_x: int,
    end_x: int,
    dx: int,
    y: int,
    end_y: int,
    dy: int,
    inclusive: bool,
)
    requires
        !within(start_x, end_x, inclusive),
    ensures
        grid_points(start_x, end_x, dx, y, end_y, dy, inclusive) == Seq::<Point<int>>::empty(),
    decreases room(y, end_y),
{
    if dy > 0 && within(y, end_y, inclusive) {
        lemma_empty_rows(start_x, end_x, dx, y + dy, end_y, dy, inclusive);
        assert(grid_points(start_x, end_x, dx, y, end_y, dy, inclusive) =~= Seq::empty());
    }
}

/// A span of zero width under the exclusive comparison gives no points:
/// every row is empty.
pub proof fn lemma_zero_width(x: int, dx: int, y: int, end_y: int, dy: int)
    ensures
        grid_points(x, x, dx, y, end_y, dy, false).len() == 0,
        forall|row: int| #[trigger] row_points(x, x, dx, row, false).len() == 0,
{
    lemma_empty_rows(x, x, dx, y, end_y, dy, false);
}

/// With the unit step and exclusive bounds, a span has as many points as
/// its width times its height.
pub proof fn lemma_count(start_x: int, end_x: int, start_y: int, end_y: int)
    requires
        start_x <= end_x,
        start_y <= end_y,
    ensures
        grid_points(start_x, end_x, 1, start_y, end_y, 1, false).len() == (end_x - start_x) * (
        end_y - start_y),
{
    lemma_grid_shape(start_x, end_x, 1, start_y, end_y, 1, false);
    lemma_count_within_unit(start_x, end_x);
    lemma_count_within_unit(start_y, end_y);
}

/// The state of a walk over a span: its corners, its step and its cursor,
/// all in the integer plane.
pub struct Walk {
    pub start: Point<int>,
    pub end: Point<int>,
    pub step: Vector<int>,
    pub current: Point<int>,
    pub inclusive: bool,
}

impl Walk {
    /// Whether the walk can go on to its end, given by `fits` the positions
    /// that a cursor may take. While rows are left, the row step moves
    /// forward and the row cursor may come to rest where it will. The same
    /// holds of the column step and the column cursor, both for the rest of
    /// the cursor's row and for a row walked from the start, unless that row
    /// is empty.
    pub open spec fn valid(self, fits: spec_fn(int) -> bool) -> bool {
        within(self.current.y, self.end.y, self.inclusive) ==> {
            &&& self.step.y > 0
            &&& fits(landing(self.current.y, self.end.y, self.step.y, self.inclusive))
            &&& within(self.start.x, self.end.x, self.inclusive) ==> {
                &&& self.step.x > 0
                &&& fits(landing(self.start.x, self.end.x, self.step.x, self.inclusive))
            }
            &&& within(self.current.x, self.end.x, self.inclusive) ==> {
                &&& self.step.x > 0
                &&& fits(landing(self.current.x, self.end.x, self.step.x, self.inclusive))
            }
        }
    }

    /// The points that are still to come, in the order in which they come:
    /// the rest of the cursor's row, then every later row in full.
    pub open spec fn remaining(self) -> Seq<Point<int>> {
        if within(self.current.y, self.end.y, self.inclusive) {
            row_points(
                self.current.x,
                self.end.x,
                self.step.x,
                self.current.y,
                self.inclusive,
            ) + grid_points(
                self.start.x,
                self.end.x,
                self.step.x,
                self.current.y + self.step.y,
                self.end.y,
                self.step.y,
                self.inclusive,
            )
        } else {
            Seq::empty()
        }
    }
}

/// A walk whose cursor stands at the start has the whole span before it.
pub proof fn lemma_remaining_at_start(w: Walk)
    requires
        w.current == w.start,
        within(w.start.y, w.end.y, w.inclusive) ==> w.step.y > 0,
    ensures
        w.remaining() == grid_points(
            w.start.x,
            w.end.x,
            w.step.x,
            w.start.y,
            w.end.y,
            w.step.y,
            w.inclusive,
        ),
{
}

} // verus!
