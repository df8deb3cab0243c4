use coord::ops::{negation, pair_difference, pair_product, pair_quotient, pair_sum};
use coord::prelude::{ExpandBy, MoveBy, Point, Rect, Size, Vector};

#[test]
fn point_plus_vector() {
    assert_eq!(Point::new(17, 29), Point::new(10, 20) + Vector::new(7, 9));
}

#[test]
fn point_minus_vector() {
    assert_eq!(Point::new(4, 7), Point::new(14, 27) - Vector::new(10, 20));
}

#[test]
fn point_minus_point() {
    assert_eq!(Vector::new(5, 8), Point::new(15, 28) - Point::new(10, 20));
}

#[test]
fn point_and_size() {
    assert_eq!(Point::new(13, 24), Point::new(3, 4) + Size::new(10, 20));
    assert_eq!(Point::new(3, 4), Point::new(13, 24) - Size::new(10, 20));
}

#[test]
fn point_assignments() {
    let mut p = Point::new(10, 20);
    p.add_assign(Vector::new(7, 9));
    assert_eq!(Point::new(17, 29), p);
    let mut q = Point::new(14, 27);
    q.sub_assign(Vector::new(10, 20));
    assert_eq!(Point::new(4, 7), q);
}

#[test]
fn vector_arithmetic() {
    assert_eq!(Vector::new(10, 15), Vector::new(3, 9) + Vector::new(7, 6));
    assert_eq!(Vector::new(3, 9), Vector::new(10, 15) - Vector::new(7, 6));
    assert_eq!(Vector::new(-5, -9), -Vector::new(5, 9));
    assert_eq!(Vector::new(20, 30), Vector::new(2, 3) * 10);
    assert_eq!(Vector::new(6, 8), Vector::new(60, 80) / 10);
    assert_eq!(Vector::new(-3, 2), Vector::new(-7, 5) / 2);
}

#[test]
fn vector_assignments() {
    let mut v = Vector::new(3, 9);
    v.add_assign(Vector::new(7, 6));
    assert_eq!(Vector::new(10, 15), v);
    v.sub_assign(Vector::new(7, 6));
    assert_eq!(Vector::new(3, 9), v);
    v.mul_assign(10);
    assert_eq!(Vector::new(30, 90), v);
    v.div_assign(30);
    assert_eq!(Vector::new(1, 3), v);
}

#[test]
fn scalar_helpers() {
    assert_eq!(9, pair_sum((4, 5)));
    assert_eq!(-1, pair_difference((4, 5)));
    assert_eq!(20, pair_product((4, 5)));
    assert_eq!(3, pair_quotient((17, 5)));
    assert_eq!(-6, negation(6));
}

#[test]
fn size_area() {
    assert_eq!(12, Size::new(3, 4).area());
    assert_eq!(0, Size::new(0u8, 200u8).area());
}

#[test]
fn move_by_moves_points_and_rects() {
    assert_eq!(
        Point::new(15, 17),
        Point::new(5, 7).move_by(Vector::new(10, 10))
    );
    assert_eq!(
        Rect::new(Point::new(12, 24), Size::new(8, 9)),
        Rect::new(Point::new(10, 20), Size::new(8, 9)).move_by(Vector::new(2, 4))
    );
}

#[test]
fn move_by_moves_tuples() {
    assert_eq!(
        (Point::new(15, 27),),
        (Point::new(5, 7),).move_by(Vector::new(10, 20))
    );
    assert_eq!(
        (
            Point::new(11, 22),
            Rect::new(Point::new(13, 24), Size::new(5, 6))
        ),
        (
            Point::new(1, 2),
            Rect::new(Point::new(3, 4), Size::new(5, 6))
        )
            .move_by(Vector::new(10, 20))
    );
    assert_eq!(
        (Point::new(11, 22), Point::new(13, 24), Point::new(15, 26)),
        (Point::new(1, 2), Point::new(3, 4), Point::new(5, 6)).move_by(Vector::new(10, 20))
    );
}

#[test]
fn expand_by_grows_sizes_and_rects() {
    assert_eq!(
        Size::new(140, 180),
        Size::new(100, 100).expand_by(Vector::new(40, 80))
    );
    assert_eq!(
        Rect::new(Point::new(2, 3), Size::new(14, 15)),
        Rect::new(Point::new(2, 3), Size::new(4, 5)).expand_by(Vector::new(10, 10))
    );
}
