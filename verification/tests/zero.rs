use coord::prelude::{Point, Vector, Zero};

#[test]
fn point_zero_has_zero_components() {
    assert_eq!(Point::new(0, 0), Point::<i32>::zero());
    assert_eq!(Point::new(0u8, 0u8), Point::<u8>::zero());
}

#[test]
fn point_is_zero_needs_both_components() {
    assert!(Point::new(0, 0).is_zero());
    assert!(!Point::new(0, 1).is_zero());
    assert!(!Point::new(1, 0).is_zero());
    assert!(!Point::new(-1, -1).is_zero());
}

#[test]
fn vector_zero_and_is_zero() {
    assert_eq!(Vector::new(0, 0), Vector::<i64>::zero());
    assert!(Vector::new(0, 0).is_zero());
    assert!(!Vector::new(0, 3).is_zero());
    assert!(!Vector::new(3, 0).is_zero());
}

#[test]
fn scalar_zero_of_every_integer() {
    assert_eq!(0i8, <i8 as Zero>::zero());
    assert_eq!(0i16, <i16 as Zero>::zero());
    assert_eq!(0i32, <i32 as Zero>::zero());
    assert_eq!(0i64, <i64 as Zero>::zero());
    assert_eq!(0i128, <i128 as Zero>::zero());
    assert_eq!(0isize, <isize as Zero>::zero());
    assert_eq!(0u8, <u8 as Zero>::zero());
    assert_eq!(0u16, <u16 as Zero>::zero());
    assert_eq!(0u32, <u32 as Zero>::zero());
    assert_eq!(0u64, <u64 as Zero>::zero());
    assert_eq!(0u128, <u128 as Zero>::zero());
    assert_eq!(0usize, <usize as Zero>::zero());
}

#[test]
fn scalar_is_zero_of_every_integer() {
    assert!(Zero::is_zero(&0i8) && !Zero::is_zero(&1i8));
    assert!(Zero::is_zero(&0i16) && !Zero::is_zero(&-1i16));
    assert!(Zero::is_zero(&0i32) && !Zero::is_zero(&7i32));
    assert!(Zero::is_zero(&0i64) && !Zero::is_zero(&7i64));
    assert!(Zero::is_zero(&0i128) && !Zero::is_zero(&7i128));
    assert!(Zero::is_zero(&0isize) && !Zero::is_zero(&7isize));
    assert!(Zero::is_zero(&0u8) && !Zero::is_zero(&7u8));
    assert!(Zero::is_zero(&0u16) && !Zero::is_zero(&7u16));
    assert!(Zero::is_zero(&0u32) && !Zero::is_zero(&7u32));
    assert!(Zero::is_zero(&0u64) && !Zero::is_zero(&7u64));
    assert!(Zero::is_zero(&0u128) && !Zero::is_zero(&7u128));
    assert!(Zero::is_zero(&0usize) && !Zero::is_zero(&7usize));
}

#[test]
fn defaults_are_component_defaults() {
    assert_eq!(Vector::new(i32::default(), i32::default()), Vector::default());
    assert_eq!(Point::new(0u16, 0u16), Point::default());
}
