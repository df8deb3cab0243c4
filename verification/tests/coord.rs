use coord::prelude::{Axis, AxisKeyed, Coord, Point, Rect, Size, Transpose, Vector};

#[test]
fn from_x_y_round_trips() {
    let p: Point<i32> = Point::from_x_y(6, 12);
    assert_eq!(Point::new(6, 12), p);
    assert_eq!(6, Coord::x(&p));
    assert_eq!(12, Coord::y(&p));
    let v: Vector<i64> = Vector::from_x_y(10, 20);
    assert_eq!(Vector::new(10, 20), v);
    assert_eq!(10, Coord::x(&v));
    assert_eq!(20, Coord::y(&v));
    let s: Size<u8> = Size::from_x_y(5, 7);
    assert_eq!(Size::new(5, 7), s);
    assert_eq!(5, s.x());
    assert_eq!(7, s.y());
}

#[test]
fn point_projections() {
    assert_eq!(4, Point::new(4, 8).x());
    assert_eq!(8, Point::new(4, 8).y());
    assert_eq!(3, Vector::new(3, 4).x());
    assert_eq!(4, Vector::new(3, 4).y());
    assert_eq!(10, Size::new(10, 20).width());
    assert_eq!(20, Size::new(10, 20).height());
}

#[test]
fn rect_is_a_pair_of_pairs() {
    let r = Rect::new(Point::new(1, 2), Size::new(5, 6));
    assert_eq!((1, 5), r.x());
    assert_eq!((2, 6), r.y());
    assert_eq!(
        Rect::new(Point::new(3, 4), Size::new(10, 20)),
        Rect::from_x_y((3, 10), (4, 20))
    );
    let back: Rect<i32> = Rect::from_x_y(r.x(), r.y());
    assert_eq!(r, back);
}

#[test]
fn tuples_project_member_by_member() {
    assert_eq!((10,), (Point::new(10, 20),).x());
    assert_eq!((20,), (Point::new(10, 20),).y());
    assert_eq!((1, 2), (Vector::new(1, 10), Point::new(2, 20)).x());
    assert_eq!((10, 20), (Vector::new(1, 10), Point::new(2, 20)).y());
    assert_eq!(
        (1, 2, 3),
        (Vector::new(1, 10), Point::new(2, 20), Size::new(3, 30)).x()
    );
    assert_eq!(
        (10, 20, 30),
        (Vector::new(1, 10), Point::new(2, 20), Size::new(3, 30)).y()
    );
}

#[test]
fn tuples_rebuild_member_by_member() {
    let pair: (Vector<i32>, Point<i32>) = Coord::from_x_y((1, 2), (10, 20));
    assert_eq!((Vector::new(1, 10), Point::new(2, 20)), pair);
    let triple: (Vector<i32>, Point<i32>, Size<i32>) = Coord::from_x_y((1, 2, 3), (10, 20, 30));
    assert_eq!(
        (Vector::new(1, 10), Point::new(2, 20), Size::new(3, 30)),
        triple
    );
    let single: (Point<i32>,) = Coord::from_x_y((7,), (9,));
    assert_eq!((Point::new(7, 9),), single);
}

#[test]
fn axis_transpose_swaps() {
    assert_eq!(Axis::Y, Axis::X.transpose());
    assert_eq!(Axis::X, Axis::Y.transpose());
    assert_eq!(Axis::X, Axis::X.transpose().transpose());
    assert_eq!(Axis::Y, Axis::Y.transpose().transpose());
}

#[test]
fn get_reads_one_axis() {
    assert_eq!(30, Vector::new(30, 50).get(Axis::X));
    assert_eq!(50, Vector::new(30, 50).get(Axis::Y));
    assert_eq!(
        (1, 5),
        Rect::new(Point::new(1, 2), Size::new(5, 6)).get(Axis::X)
    );
}

#[test]
fn set_writes_one_axis() {
    assert_eq!(Point::new(10, 8), Point::new(5, 8).set(Axis::X, 10));
    assert_eq!(Point::new(5, 10), Point::new(5, 8).set(Axis::Y, 10));
}

#[test]
fn set_of_get_changes_nothing() {
    let v = Vector::new(30, 50);
    assert_eq!(v, v.set(Axis::X, v.get(Axis::X)));
    assert_eq!(v, v.set(Axis::Y, v.get(Axis::Y)));
    let r = Rect::new(Point::new(1, 2), Size::new(5, 6));
    assert_eq!(r, r.set(Axis::X, r.get(Axis::X)));
    assert_eq!(r, r.set(Axis::Y, r.get(Axis::Y)));
}

#[test]
fn axis_arithmetic() {
    assert_eq!(Point::new(12, 20), Point::new(10, 20).add(Axis::X, 2));
    assert_eq!(Point::new(10, 22), Point::new(10, 20).add(Axis::Y, 2));
    assert_eq!(Point::new(8, 20), Point::new(10, 20).sub(Axis::X, 2));
    assert_eq!(Point::new(10, 17), Point::new(10, 20).sub(Axis::Y, 3));
    assert_eq!(Point::new(12, 5), Point::new(4, 5).mul(Axis::X, 3));
    assert_eq!(Point::new(4, 20), Point::new(4, 5).mul(Axis::Y, 4));
    assert_eq!(Point::new(4, 20), Point::new(12, 20).div(Axis::X, 3));
    assert_eq!(Point::new(12, 5), Point::new(12, 20).div(Axis::Y, 4));
}

#[test]
fn transpose_swaps_components() {
    assert_eq!(Vector::new(8, 12), Vector::new(12, 8).transpose());
    assert_eq!(
        Rect::new(Point::new(2, 1), Size::new(6, 5)),
        Rect::new(Point::new(1, 2), Size::new(5, 6)).transpose()
    );
}

#[test]
fn transpose_twice_is_identity() {
    let v = Vector::new(12, 8);
    assert_eq!(v, v.transpose().transpose());
    let t = (Point::new(1, 2), Size::new(3, 4));
    assert_eq!(t, t.transpose().transpose());
}
