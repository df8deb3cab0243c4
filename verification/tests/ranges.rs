use coord::point_range_iterator::{is_walkable, next};
use coord::prelude::{
    Point, PointRange, PointRangeIterator, PointRangeIteratorInclusive, PointStep, Rect, Size,
    Vector,
};

fn grid(xs: &[i32], ys: &[i32]) -> Vec<Point<i32>> {
    let mut out = Vec::new();
    for y in ys {
        for x in xs {
            out.push(Point::new(*x, *y));
        }
    }
    out
}

#[test]
fn exclusive_range_is_row_major() {
    assert_eq!(
        vec![
            Point::new(10, 20), Point::new(11, 20), Point::new(12, 20),
            Point::new(10, 21), Point::new(11, 21), Point::new(12, 21),
            Point::new(10, 22), Point::new(11, 22), Point::new(12, 22),
            Point::new(10, 23), Point::new(11, 23), Point::new(12, 23)
        ],
        (Point::new(10, 20)..Point::new(13, 24)).points().to_vec()
    );
}

#[test]
fn inclusive_range_is_row_major() {
    assert_eq!(
        vec![
            Point::new(10, 20), Point::new(11, 20), Point::new(12, 20), Point::new(13, 20),
            Point::new(10, 21), Point::new(11, 21), Point::new(12, 21), Point::new(13, 21),
            Point::new(10, 22), Point::new(11, 22), Point::new(12, 22), Point::new(13, 22),
            Point::new(10, 23), Point::new(11, 23), Point::new(12, 23), Point::new(13, 23),
            Point::new(10, 24), Point::new(11, 24), Point::new(12, 24), Point::new(13, 24)
        ],
        (Point::new(10, 20)..=Point::new(13, 24)).points().to_vec()
    );
}

#[test]
fn stepped_points_of_a_size() {
    assert_eq!(
        vec![
            Point::new(3, 2), Point::new(5, 2), Point::new(7, 2),
            Point::new(3, 3), Point::new(5, 3), Point::new(7, 3)
        ],
        Size::new(6, 2).points_step(Point::new(3, 2), Vector::new(2, 1)).to_vec()
    );
}

#[test]
fn unit_points_of_a_size() {
    assert_eq!(
        vec![
            Point::new(3, 2), Point::new(4, 2), Point::new(5, 2),
            Point::new(3, 3), Point::new(4, 3), Point::new(5, 3)
        ],
        Size::new(3, 2).points(Point::new(3, 2)).to_vec()
    );
}

#[test]
fn stepped_inclusive_points_of_a_size() {
    assert_eq!(
        vec![
            Point::new(3, 2), Point::new(5, 2), Point::new(7, 2), Point::new(9, 2),
            Point::new(3, 3), Point::new(5, 3), Point::new(7, 3), Point::new(9, 3),
            Point::new(3, 4), Point::new(5, 4), Point::new(7, 4), Point::new(9, 4)
        ],
        Size::new(6, 2)
            .points_step_inclusive(Point::new(3, 2), Vector::new(2, 1))
            .to_vec()
    );
}

#[test]
fn unit_inclusive_points_of_a_size() {
    assert_eq!(
        vec![
            Point::new(3, 2), Point::new(4, 2), Point::new(5, 2), Point::new(6, 2),
            Point::new(3, 3), Point::new(4, 3), Point::new(5, 3), Point::new(6, 3),
            Point::new(3, 4), Point::new(4, 4), Point::new(5, 4), Point::new(6, 4)
        ],
        Size::new(3, 2).points_inclusive(Point::new(3, 2)).to_vec()
    );
}

#[test]
fn points_of_a_rect() {
    assert_eq!(
        vec![
            Point::new(10, 20), Point::new(11, 20),
            Point::new(10, 21), Point::new(11, 21),
            Point::new(10, 22), Point::new(11, 22)
        ],
        Rect::new(Point::new(10, 20), Size::new(2, 3)).points().to_vec()
    );
}

#[test]
fn step_that_does_not_divide_the_span() {
    assert_eq!(
        grid(&[0, 3, 6], &[0, 4]),
        PointRangeIterator::new(Point::new(0, 0), Point::new(7, 5), Vector::new(3, 4)).to_vec()
    );
    assert_eq!(
        grid(&[0, 3, 6], &[0, 4, 8]),
        PointRangeIteratorInclusive::new(Point::new(0, 0), Point::new(6, 8), Vector::new(3, 4))
            .to_vec()
    );
}

#[test]
fn zero_width_span_has_no_points() {
    assert_eq!(
        Vec::<Point<i32>>::new(),
        (Point::new(5, 0)..Point::new(5, 3)).points().to_vec()
    );
    let mut walk = (Point::new(5, 0)..Point::new(5, 3)).points();
    assert_eq!(None, walk.next());
    assert_eq!(None, walk.next());
}

#[test]
fn zero_width_span_ignores_the_column_step() {
    let walk = PointRangeIterator::new(Point::new(5, 0), Point::new(5, 3), Vector::new(0, 1));
    assert_eq!(Vec::<Point<i32>>::new(), walk.to_vec());
}

#[test]
fn reversed_and_zero_height_spans_have_no_points() {
    assert_eq!(
        Vec::<Point<i32>>::new(),
        (Point::new(7, 0)..Point::new(5, 3)).points().to_vec()
    );
    assert_eq!(
        Vec::<Point<i32>>::new(),
        (Point::new(0, 3)..Point::new(5, 3)).points().to_vec()
    );
    assert_eq!(
        Vec::<Point<i32>>::new(),
        (Point::new(0, 4)..=Point::new(5, 3)).points().to_vec()
    );
}

#[test]
fn inclusive_span_of_one_point() {
    assert_eq!(
        vec![Point::new(5, 3)],
        (Point::new(5, 3)..=Point::new(5, 3)).points().to_vec()
    );
}

#[test]
fn count_is_width_times_height() {
    assert_eq!(12, (Point::new(10, 20)..Point::new(13, 24)).points().to_vec().len());
    assert_eq!(35, (Point::new(-3, -2)..Point::new(4, 3)).points().to_vec().len());
    assert_eq!(0, (Point::new(0, 0)..Point::new(0, 0)).points().to_vec().len());
    assert_eq!(6, (Point::new(0u8, 0u8)..Point::new(1u8, 6u8)).points().to_vec().len());
}

#[test]
fn next_walks_and_then_stays_at_none() {
    let mut walk = PointRangeIterator::new(Point::new(0, 0), Point::new(2, 2), Vector::new(1, 1));
    assert_eq!(Some(Point::new(0, 0)), walk.next());
    assert_eq!(Some(Point::new(1, 0)), walk.next());
    assert_eq!(Some(Point::new(0, 1)), walk.next());
    assert_eq!(Some(Point::new(1, 1)), walk.next());
    assert_eq!(None, walk.next());
    assert_eq!(None, walk.next());
}

#[test]
fn to_vec_gives_what_is_left() {
    let mut walk =
        PointRangeIteratorInclusive::new(Point::new(0, 0), Point::new(1, 1), Vector::new(1, 1));
    assert_eq!(Some(Point::new(0, 0)), walk.next());
    assert_eq!(
        vec![Point::new(1, 0), Point::new(0, 1), Point::new(1, 1)],
        walk.to_vec()
    );
}

#[test]
fn cursor_function_moves_the_cursor() {
    let start = Point::new(0, 0);
    let end = Point::new(2, 1);
    let step = Vector::new(1, 1);
    let mut current = start;
    assert_eq!(Some(Point::new(0, 0)), next(start, end, step, &mut current, false));
    assert_eq!(Point::new(1, 0), current);
    assert_eq!(Some(Point::new(1, 0)), next(start, end, step, &mut current, false));
    assert_eq!(Point::new(2, 0), current);
    assert_eq!(None, next(start, end, step, &mut current, false));
    assert_eq!(Point::new(0, 1), current);
    let mut again = start;
    assert_eq!(Some(Point::new(0, 0)), next(start, end, step, &mut again, true));
    assert_eq!(Some(Point::new(1, 0)), next(start, end, step, &mut again, true));
    assert_eq!(Some(Point::new(2, 0)), next(start, end, step, &mut again, true));
    assert_eq!(Some(Point::new(0, 1)), next(start, end, step, &mut again, true));
}

#[test]
fn exclusive_range_may_end_at_the_largest_value() {
    assert_eq!(
        vec![Point::new(253u8, 254u8), Point::new(254u8, 254u8)],
        (Point::new(253u8, 254u8)..Point::new(255u8, 255u8)).points().to_vec()
    );
}

#[test]
fn unit_step_is_one() {
    assert_eq!(1i8, <i8 as PointStep>::one());
    assert_eq!(1i16, <i16 as PointStep>::one());
    assert_eq!(1i32, <i32 as PointStep>::one());
    assert_eq!(1i64, <i64 as PointStep>::one());
    assert_eq!(1i128, <i128 as PointStep>::one());
    assert_eq!(1isize, <isize as PointStep>::one());
    assert_eq!(1u8, <u8 as PointStep>::one());
    assert_eq!(1u16, <u16 as PointStep>::one());
    assert_eq!(1u32, <u32 as PointStep>::one());
    assert_eq!(1u64, <u64 as PointStep>::one());
    assert_eq!(1u128, <u128 as PointStep>::one());
    assert_eq!(1usize, <usize as PointStep>::one());
}

#[test]
fn ranges_over_other_integers() {
    assert_eq!(
        vec![Point::new(-1i64, 5i64), Point::new(0i64, 5i64)],
        (Point::new(-1i64, 5i64)..Point::new(1i64, 6i64)).points().to_vec()
    );
    assert_eq!(
        vec![Point::new(7usize, 0usize), Point::new(7usize, 1usize)],
        (Point::new(7usize, 0usize)..=Point::new(7usize, 1usize)).points().to_vec()
    );
}

fn exclusive(start: (i32, i32), end: (i32, i32), step: (i32, i32)) -> PointRangeIterator<i32, i32> {
    PointRangeIterator::new(
        Point::new(start.0, start.1),
        Point::new(end.0, end.1),
        Vector::new(step.0, step.1),
    )
}

fn exclusive_u8(start: (u8, u8), end: (u8, u8), step: (u8, u8)) -> PointRangeIterator<u8, u8> {
    PointRangeIterator::new(
        Point::new(start.0, start.1),
        Point::new(end.0, end.1),
        Vector::new(step.0, step.1),
    )
}

#[test]
fn walks_with_forward_steps_are_valid() {
    assert!(exclusive((0, 0), (2, 2), (1, 1)).is_valid());
    assert!(
        PointRangeIteratorInclusive::new(Point::new(0, 0), Point::new(6, 8), Vector::new(3, 4))
            .is_valid()
    );
    assert!((Point::new(253u8, 254u8)..Point::new(255u8, 255u8)).points().is_valid());
}

#[test]
fn walks_with_idle_steps_are_not_valid() {
    assert!(!exclusive((0, 0), (2, 2), (0, 1)).is_valid());
    assert!(!exclusive((0, 0), (2, 2), (1, 0)).is_valid());
    assert!(!exclusive((0, 0), (2, 2), (-1, 1)).is_valid());
}

#[test]
fn empty_walks_are_valid_whatever_the_step() {
    assert!(exclusive((0, 2), (2, 2), (0, 0)).is_valid());
    assert!(exclusive((5, 0), (5, 3), (0, 1)).is_valid());
    assert!(!exclusive((5, 0), (5, 3), (1, 0)).is_valid());
}

#[test]
fn walks_that_would_overflow_are_not_valid() {
    assert!(
        !PointRangeIteratorInclusive::new(
            Point::new(254u8, 0u8),
            Point::new(255u8, 0u8),
            Vector::new(1u8, 1u8)
        )
        .is_valid()
    );
    assert!(!exclusive_u8((0, 0), (255, 1), (2, 1)).is_valid());
    assert!(exclusive_u8((1, 0), (255, 1), (2, 1)).is_valid());
}

#[test]
fn walks_stay_valid() {
    let mut walk = exclusive_u8((1, 0), (255, 1), (127, 1));
    assert!(walk.is_valid());
    assert_eq!(Some(Point::new(1u8, 0u8)), walk.next());
    assert!(walk.is_valid());
    assert_eq!(Some(Point::new(128u8, 0u8)), walk.next());
    assert!(walk.is_valid());
    assert_eq!(None, walk.next());
    assert!(walk.is_valid());
}

#[test]
fn scalar_steps() {
    assert_eq!(Some(10u8), 7u8.checked_step(3u8));
    assert_eq!(None, 250u8.checked_step(6u8));
    assert_eq!(Some(-128i8), (-127i8).checked_step(-1i8));
    assert_eq!(None, (-128i8).checked_step(-1i8));
    assert!(<i32 as PointStep>::moves_forward(1));
    assert!(!<i32 as PointStep>::moves_forward(0));
    assert!(!<i32 as PointStep>::moves_forward(-1));
}

#[test]
fn walkable_is_told_from_plain_values() {
    let start = Point::new(0, 0);
    let end = Point::new(2, 2);
    assert!(is_walkable(start, end, Vector::new(1, 1), start, false));
    assert!(!is_walkable(start, end, Vector::new(0, 1), start, true));
    assert!(is_walkable(start, end, Vector::new(0, 1), Point::new(0, 2), false));
}
