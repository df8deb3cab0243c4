//! Arithmetic between points, displacements and extents. Every operator
//! works component by component, through the scalar operator of the
//! component types, and asks of its operands what that operator asks.
use vstd::prelude::*;
use vstd::std_specs::ops::{
    AddSpec, AddSpecImpl, DivSpec, DivSpecImpl, MulSpec, MulSpecImpl, NegSpec, NegSpecImpl,
    SubSpec, SubSpecImpl,
};
use core::ops::{Add, Div, Mul, Neg, Sub};
use crate::coord::Primitive;
use crate::map::CoordMap;
use crate::point::Point;
use crate::size::Size;
use crate::vector::Vector;

verus! {

/// The sum of the two members of a pair of scalars, as `+` gives it.
pub fn pair_sum<T: Add<U>, U>(c: (T, U)) -> (r: <T as Add<U>>::Output)
    requires
        c.0.add_req(c.1),
    ensures
        <T as AddSpec<U>>::obeys_add_spec() ==> r == c.0.add_spec(c.1),
{
    c.0 + c.1
}

/// The difference of the two members of a pair of scalars, as `-` gives it.
pub fn pair_difference<T: Sub<U>, U>(c: (T, U)) -> (r: <T as Sub<U>>::Output)
    requires
        c.0.sub_req(c.1),
    ensures
        <T as SubSpec<U>>::obeys_sub_spec() ==> r == c.0.sub_spec(c.1),
{
    c.0 - c.1
}

/// The product of the two members of a pair of scalars, as `*` gives it.
pub fn pair_product<T: Mul<U>, U>(c: (T, U)) -> (r: <T as Mul<U>>::Output)
    requires
        c.0.mul_req(c.1),
    ensures
        <T as MulSpec<U>>::obeys_mul_spec() ==> r == c.0.mul_spec(c.1),
{
    c.0 * c.1
}

/// The quotient of the two members of a pair of scalars, as `/` gives it.
pub fn pair_quotient<T: Div<U>, U>(c: (T, U)) -> (r: <T as Div<U>>::Output)
    requires
        c.0.div_req(c.1),
    ensures
        <T as DivSpec<U>>::obeys_div_spec() ==> r == c.0.div_spec(c.1),
{
    c.0 / c.1
}

/// The negation of a scalar, as unary `-` gives it.
pub fn negation<T: Neg>(n: T) -> (r: <T as Neg>::Output)
    requires
        n.neg_req(),
    ensures
        <T as NegSpec>::obeys_neg_spec() ==> r == n.neg_spec(),
{
    n.neg()
}

/// A point moved by a displacement: the components are added axis by axis.
impl<U: Primitive, T: Primitive + Add<U>> AddSpecImpl<Vector<U>> for Point<T> where
    <T as Add<U>>::Output: Primitive,
 {
    open spec fn obeys_add_spec() -> bool {
        <T as AddSpec<U>>::obeys_add_spec()
    }

    open spec fn add_req(self, rhs: Vector<U>) -> bool {
        self.x.add_req(rhs.x) && self.y.add_req(rhs.y)
    }

    open spec fn add_spec(self, rhs: Vector<U>) -> Self::Output {
        Point { x: self.x.add_spec(rhs.x), y: self.y.add_spec(rhs.y) }
    }
}

impl<U: Primitive, T: Primitive + Add<U>> Add<Vector<U>> for Point<T> where
    <T as Add<U>>::Output: Primitive,
 {
    type Output = Point<<T as Add<U>>::Output>;

    fn add(self, rhs: Vector<U>) -> (r: Self::Output) {
        (self, rhs).map(pair_sum::<T, U>)
    }
}

/// A point moved back by a displacement: the components are subtracted axis by axis.
impl<U: Primitive, T: Primitive + Sub<U>> SubSpecImpl<Vector<U>> for Point<T> where
    <T as Sub<U>>::Output: Primitive,
 {
    open spec fn obeys_sub_spec() -> bool {
        <T as SubSpec<U>>::obeys_sub_spec()
    }

    open spec fn sub_req(self, rhs: Vector<U>) -> bool {
        self.x.sub_req(rhs.x) && self.y.sub_req(rhs.y)
    }

    open spec fn sub_spec(self, rhs: Vector<U>) -> Self::Output {
        Point { x: self.x.sub_spec(rhs.x), y: self.y.sub_spec(rhs.y) }
    }
}

impl<U: Primitive, T: Primitive + Sub<U>> Sub<Vector<U>> for Point<T> where
    <T as Sub<U>>::Output: Primitive,
 {
    type Output = Point<<T as Sub<U>>::Output>;

    fn sub(self, rhs: Vector<U>) -> (r: Self::Output) {
        (self, rhs).map(pair_difference::<T, U>)
    }
}

/// The displacement that leads from the right point to the left one.
impl<U: Primitive, T: Primitive + Sub<U>> SubSpecImpl<Point<U>> for Point<T> where
    <T as Sub<U>>::Output: Primitive,
 {
    open spec fn obeys_sub_spec() -> bool {
        <T as SubSpec<U>>::obeys_sub_spec()
    }

    open spec fn sub_req(self, rhs: Point<U>) -> bool {
        self.x.sub_req(rhs.x) && self.y.sub_req(rhs.y)
    }

    open spec fn sub_spec(self, rhs: Point<U>) -> Self::Output {
        Vector { x: self.x.sub_spec(rhs.x), y: self.y.sub_spec(rhs.y) }
    }
}

impl<U: Primitive, T: Primitive + Sub<U>> Sub<Point<U>> for Point<T> where
    <T as Sub<U>>::Output: Primitive,
 {
    type Output = Vector<<T as Sub<U>>::Output>;

    fn sub(self, rhs: Point<U>) -> (r: Self::Output) {
        (self, rhs).map(pair_difference::<T, U>)
    }
}

/// The point that lies an extent beyond a point.
impl<U: Primitive, T: Primitive + Add<U>> AddSpecImpl<Size<U>> for Point<T> where
    <T as Add<U>>::Output: Primitive,
 {
    open spec fn obeys_add_spec() -> bool {
        <T as AddSpec<U>>::obeys_add_spec()
    }

    open spec fn add_req(self, rhs: Size<U>) -> bool {
        self.x.add_req(rhs.width) && self.y.add_req(rhs.height)
    }

    open spec fn add_spec(self, rhs: Size<U>) -> Self::Output {
        Point { x: self.x.add_spec(rhs.width), y: self.y.add_spec(rhs.height) }
    }
}

impl<U: Primitive, T: Primitive + Add<U>> Add<Size<U>> for Point<T> where
    <T as Add<U>>::Output: Primitive,
 {
    type Output = Point<<T as Add<U>>::Output>;

    fn add(self, rhs: Size<U>) -> (r: Self::Output) {
        (self, rhs).map(pair_sum::<T, U>)
    }
}

/// The point that lies an extent before a point.
impl<U: Primitive, T: Primitive + Sub<U>> SubSpecImpl<Size<U>> for Point<T> where
    <T as Sub<U>>::Output: Primitive,
 {
    open spec fn obeys_sub_spec() -> bool {
        <T as SubSpec<U>>::obeys_sub_spec()
    }

    open spec fn sub_req(self, rhs: Size<U>) -> bool {
        self.x.sub_req(rhs.width) && self.y.sub_req(rhs.height)
    }

    open spec fn sub_spec(self, rhs: Size<U>) -> Self::Output {
        Point { x: self.x.sub_spec(rhs.width), y: self.y.sub_spec(rhs.height) }
    }
}

impl<U: Primitive, T: Primitive + Sub<U>> Sub<Size<U>> for Point<T> where
    <T as Sub<U>>::Output: Primitive,
 {
    type Output = Point<<T as Sub<U>>::Output>;

    fn sub(self, rhs: Size<U>) -> (r: Self::Output) {
        (self, rhs).map(pair_difference::<T, U>)
    }
}

/// The sum of two displacements, axis by axis.
impl<U: Primitive, T: Primitive + Add<U>> AddSpecImpl<Vector<U>> for Vector<T> where
    <T as Add<U>>::Output: Primitive,
 {
    open spec fn obeys_add_spec() -> bool {
        <T as AddSpec<U>>::obeys_add_spec()
    }

    open spec fn add_req(self, rhs: Vector<U>) -> bool {
        self.x.add_req(rhs.x) && self.y.add_req(rhs.y)
    }

    open spec fn add_spec(self, rhs: Vector<U>) -> Self::Output {
        Vector { x: self.x.add_spec(rhs.x), y: self.y.add_spec(rhs.y) }
    }
}

impl<U: Primitive, T: Primitive + Add<U>> Add<Vector<U>> for Vector<T> where
    <T as Add<U>>::Output: Primitive,
 {
    type Output = Vector<<T as Add<U>>::Output>;

    fn add(self, rhs: Vector<U>) -> (r: Self::Output) {
        (self, rhs).map(pair_sum::<T, U>)
    }
}

/// The difference of two displacements, axis by axis.
impl<U: Primitive, T: Primitive + Sub<U>> SubSpecImpl<Vector<U>> for Vector<T> where
    <T as Sub<U>>::Output: Primitive,
 {
    open spec fn obeys_sub_spec() -> bool {
        <T as SubSpec<U>>::obeys_sub_spec()
    }

    open spec fn sub_req(self, rhs: Vector<U>) -> bool {
        self.x.sub_req(rhs.x) && self.y.sub_req(rhs.y)
    }

    open spec fn sub_spec(self, rhs: Vector<U>) -> Self::Output {
        Vector { x: self.x.sub_spec(rhs.x), y: self.y.sub_spec(rhs.y) }
    }
}

impl<U: Primitive, T: Primitive + Sub<U>> Sub<Vector<U>> for Vector<T> where
    <T as Sub<U>>::Output: Primitive,
 {
    type Output = Vector<<T as Sub<U>>::Output>;

    fn sub(self, rhs: Vector<U>) -> (r: Self::Output) {
        (self, rhs).map(pair_difference::<T, U>)
    }
}

/// A displacement scaled up: both components multiplied by one scalar.
impl<U: Copy, T: Primitive + Mul<U>> MulSpecImpl<U> for Vector<T> where
    <T as Mul<U>>::Output: Primitive,
 {
    open spec fn obeys_mul_spec() -> bool {
        <T as MulSpec<U>>::obeys_mul_spec()
    }

    open spec fn mul_req(self, rhs: U) -> bool {
        self.x.mul_req(rhs) && self.y.mul_req(rhs)
    }

    open spec fn mul_spec(self, rhs: U) -> Self::Output {
        Vector { x: self.x.mul_spec(rhs), y: self.y.mul_spec(rhs) }
    }
}

impl<U: Copy, T: Primitive + Mul<U>> Mul<U> for Vector<T> where
    <T as Mul<U>>::Output: Primitive,
 {
    type Output = Vector<<T as Mul<U>>::Output>;

    fn mul(self, rhs: U) -> (r: Self::Output) {
        (self, Vector::new(rhs, rhs)).map(pair_product::<T, U>)
    }
}

/// A displacement scaled down: both components divided by one scalar.
impl<U: Copy, T: Primitive + Div<U>> DivSpecImpl<U> for Vector<T> where
    <T as Div<U>>::Output: Primitive,
 {
    open spec fn obeys_div_spec() -> bool {
        <T as DivSpec<U>>::obeys_div_spec()
    }

    open spec fn div_req(self, rhs: U) -> bool {
        self.x.div_req(rhs) && self.y.div_req(rhs)
    }

    open spec fn div_spec(self, rhs: U) -> Self::Output {
        Vector { x: self.x.div_spec(rhs), y: self.y.div_spec(rhs) }
    }
}

impl<U: Copy, T: Primitive + Div<U>> Div<U> for Vector<T> where
    <T as Div<U>>::Output: Primitive,
 {
    type Output = Vector<<T as Div<U>>::Output>;

    fn div(self, rhs: U) -> (r: Self::Output) {
        (self, Vector::new(rhs, rhs)).map(pair_quotient::<T, U>)
    }
}

/// The opposite displacement: both components negated.
impl<T: Primitive + Neg> NegSpecImpl for Vector<T> where <T as Neg>::Output: Primitive {
    open spec fn obeys_neg_spec() -> bool {
        <T as NegSpec>::obeys_neg_spec()
    }

    open spec fn neg_req(self) -> bool {
        self.x.neg_req() && self.y.neg_req()
    }

    open spec fn neg_spec(self) -> Self::Output {
        Vector { x: self.x.neg_spec(), y: self.y.neg_spec() }
    }
}

impl<T: Primitive + Neg> Neg for Vector<T> where <T as Neg>::Output: Primitive {
    type Output = Vector<<T as Neg>::Output>;

    fn neg(self) -> (r: Self::Output) {
        self.map(negation::<T>)
    }
}

impl<T: Primitive> Point<T> {
    /// Replaces the value by `self + rhs`.
    pub fn add_assign<R>(&mut self, rhs: R) where Point<T>: Add<R, Output = Point<T>>
        requires
            old(self).add_req(rhs),
        ensures
            <Point<T> as AddSpec<R>>::obeys_add_spec() ==> *final(self) == old(self).add_spec(rhs),
    {
        *self = *self + rhs;
    }

    /// Replaces the value by `self - rhs`.
    pub fn sub_assign<R>(&mut self, rhs: R) where Point<T>: Sub<R, Output = Point<T>>
        requires
            old(self).sub_req(rhs),
        ensures
            <Point<T> as SubSpec<R>>::obeys_sub_spec() ==> *final(self) == old(self).sub_spec(rhs),
    {
        *self = *self - rhs;
    }
}

impl<T: Primitive> Vector<T> {
    /// Replaces the value by `self + rhs`.
    pub fn add_assign<R>(&mut self, rhs: R) where Vector<T>: Add<R, Output = Vector<T>>
        requires
            old(self).add_req(rhs),
        ensures
            <Vector<T> as AddSpec<R>>::obeys_add_spec() ==> *final(self) == old(self).add_spec(rhs),
    {
        *self = *self + rhs;
    }

    /// Replaces the value by `self - rhs`.
    pub fn sub_assign<R>(&mut self, rhs: R) where Vector<T>: Sub<R, Output = Vector<T>>
        requires
            old(self).sub_req(rhs),
        ensures
            <Vector<T> as SubSpec<R>>::obeys_sub_spec() ==> *final(self) == old(self).sub_spec(rhs),
    {
        *self = *self - rhs;
    }

    /// Replaces the value by `self * rhs`.
    pub fn mul_assign<R>(&mut self, rhs: R) where Vector<T>: Mul<R, Output = Vector<T>>
        requires
            old(self).mul_req(rhs),
        ensures
            <Vector<T> as MulSpec<R>>::obeys_mul_spec() ==> *final(self) == old(self).mul_spec(rhs),
    {
        *self = *self * rhs;
    }

    /// Replaces the value by `self / rhs`.
    pub fn div_assign<R>(&mut self, rhs: R) where Vector<T>: Div<R, Output = Vector<T>>
        requires
            old(self).div_req(rhs),
        ensures
            <Vector<T> as DivSpec<R>>::obeys_div_spec() ==> *final(self) == old(self).div_spec(rhs),
    {
        *self = *self / rhs;
    }
}

} // verus!
