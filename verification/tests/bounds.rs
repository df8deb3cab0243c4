use coord::prelude::{Point, PointBound, PointRangeBounds};

#[test]
fn range_contains() {
    assert!((Point::new(0, 100)..Point::new(10, 110)).contains(Point::new(3, 108)));
    assert!((Point::new(0, 100)..Point::new(10, 110)).contains(Point::new(0, 100)));
    assert!(!(Point::new(0, 100)..Point::new(10, 110)).contains(Point::new(10, 108)));
    assert!(!(Point::new(0, 100)..Point::new(10, 110)).contains(Point::new(3, 110)));
    assert!(!(Point::new(0, 100)..Point::new(10, 110)).contains(Point::new(-1, 105)));
}

#[test]
fn included_end_contains_the_end() {
    let span = (
        PointBound::Included(Point::new(0, 10)),
        PointBound::Included(Point::new(10, 20)),
    );
    assert!(span.contains(Point::new(10, 20)));
    assert!(span.contains(Point::new(0, 10)));
    assert!(!span.contains(Point::new(11, 20)));
    assert!(!span.contains(Point::new(10, 21)));
}

#[test]
fn excluded_start_leaves_the_start_out() {
    let span = (
        PointBound::Excluded(Point::new(0, 10)),
        PointBound::Unbounded,
    );
    assert!(!span.contains(Point::new(0, 10)));
    assert!(!span.contains(Point::new(1, 10)));
    assert!(span.contains(Point::new(1, 11)));
    assert!(span.contains(Point::new(1000, 2000)));
}

#[test]
fn one_sided_and_unbounded_spans() {
    let from = (PointBound::Included(Point::new(10, 20)), PointBound::Unbounded);
    assert!(from.contains(Point::new(15, 25)));
    assert!(!from.contains(Point::new(9, 25)));
    let to = (PointBound::Unbounded, PointBound::Excluded(Point::new(10, 20)));
    assert!(to.contains(Point::new(8, 17)));
    assert!(!to.contains(Point::new(10, 17)));
    let to_inclusive = (PointBound::Unbounded, PointBound::Included(Point::new(10, 20)));
    assert!(to_inclusive.contains(Point::new(10, 20)));
    let full: (PointBound<i32>, PointBound<i32>) = (PointBound::Unbounded, PointBound::Unbounded);
    assert!(full.contains(Point::new(100, 200)));
}

#[test]
fn bounds_are_handed_out() {
    let span = Point::new(1, 2)..Point::new(3, 4);
    assert_eq!(PointBound::Included(Point::new(1, 2)), span.start_point_bound());
    assert_eq!(PointBound::Excluded(Point::new(3, 4)), span.end_point_bound());
}

#[test]
fn bounds_contain_directly() {
    assert!(coord::point_range::bounds_contain(
        PointBound::Included(Point::new(0u8, 0u8)),
        PointBound::Excluded(Point::new(2u8, 2u8)),
        Point::new(1u8, 1u8)
    ));
    assert!(!coord::point_range::bounds_contain(
        PointBound::Included(Point::new(0u8, 0u8)),
        PointBound::Excluded(Point::new(2u8, 2u8)),
        Point::new(2u8, 1u8)
    ));
}

#[test]
fn inclusive_range_contains_its_end() {
    assert!((Point::new(0, 10)..=Point::new(10, 20)).contains(Point::new(10, 20)));
    assert!((Point::new(0, 10)..=Point::new(10, 20)).contains(Point::new(0, 10)));
    assert!(!(Point::new(0, 10)..=Point::new(10, 20)).contains(Point::new(11, 20)));
    assert!(!(Point::new(0, 10)..=Point::new(10, 20)).contains(Point::new(10, 9)));
    let span = Point::new(1, 2)..=Point::new(3, 4);
    assert_eq!(PointBound::Included(Point::new(1, 2)), span.start_point_bound());
    assert_eq!(PointBound::Included(Point::new(3, 4)), span.end_point_bound());
}
