use coord::prelude::{Point, Rect, Size};

#[test]
fn rect_parts() {
    let r = Rect::new(Point::new(4, 5), Size::new(10, 20));
    assert_eq!(Point::new(4, 5), r.origin());
    assert_eq!(Size::new(10, 20), r.size());
}

#[test]
fn rect_max_is_origin_plus_size() {
    assert_eq!(
        Point::new(13, 24),
        Rect::new(Point::new(3, 4), Size::new(10, 20)).max()
    );
}

#[test]
fn rect_contains_inner_point() {
    assert!(Rect::new(Point::new(5, 10), Size::new(4, 8)).contains(Point::new(7, 13)));
}

#[test]
fn rect_is_half_open() {
    let r = Rect::new(Point::new(5, 10), Size::new(4, 8));
    assert!(r.contains(r.origin()));
    assert!(!r.contains(r.max()));
    assert!(r.contains(Point::new(8, 17)));
    assert!(!r.contains(Point::new(9, 17)));
    assert!(!r.contains(Point::new(8, 18)));
    assert!(!r.contains(Point::new(4, 10)));
    assert!(!r.contains(Point::new(5, 9)));
}

#[test]
fn empty_rect_contains_nothing() {
    let r = Rect::new(Point::new(5, 10), Size::new(0, 8));
    assert!(!r.contains(Point::new(5, 10)));
}
