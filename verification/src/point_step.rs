//! Scalars over which spans of points can be walked: the integer types.
use vstd::prelude::*;
use vstd::std_specs::cmp::{PartialOrdIs, PartialOrdSpec};
use vstd::std_specs::ops::AddSpec;
use core::ops::Add;
use crate::coord::Primitive;

verus! {

/// A scalar that a range of points can be walked over in steps of type `S`:
/// it is ordered, a step can be added to it, and both agree with the integers.
pub trait PointStep<S: Primitive = Self>: Primitive + PartialOrd + Add<S, Output = Self> {
    /// Where the scalar lies on the number line.
    spec fn rank(self) -> int;

    /// How far a step moves a scalar along the number line.
    spec fn stride(step: S) -> int;

    /// Whether some scalar of this type lies at `v`.
    spec fn representable(v: int) -> bool;

    /// `<` and `<=` order the scalars as their ranks are ordered.
    proof fn lemma_order(a: Self, b: Self)
        ensures
            Self::obeys_partial_cmp_spec(),
            a.is_lt(&b) <==> a.rank() < b.rank(),
            a.is_le(&b) <==> a.rank() <= b.rank(),
    ;

    /// `+` is defined exactly where the sum is representable, and moves the
    /// scalar by the step's stride.
    proof fn lemma_advance(a: Self, step: S)
        ensures
            Self::obeys_add_spec(),
            a.add_req(step) <==> Self::representable(a.rank() + Self::stride(step)),
            a.add_req(step) ==> a.add_spec(step).rank() == a.rank() + Self::stride(step),
    ;

    /// Every scalar is representable, distinct scalars have distinct ranks,
    /// and the representable positions form an interval.
    proof fn lemma_representable(a: Self, b: Self, low: int, mid: int, high: int)
        ensures
            Self::representable(a.rank()),
            a.rank() == b.rank() ==> a == b,
            Self::representable(low) && Self::representable(high) && low <= mid <= high
                ==> Self::representable(mid),
    ;

    /// The unit step.
    fn one() -> (r: S)
        ensures
            Self::stride(r) == 1,
    ;

    /// Whether the step moves a scalar forward.
    fn moves_forward(step: S) -> (r: bool)
        ensures
            r == (Self::stride(step) > 0),
    ;

    /// The scalar one step on, or `None` where `+` is not defined.
    fn checked_step(self, step: S) -> (r: Option<Self>)
        ensures
            match r {
                Some(v) => self.add_req(step) && v == self.add_spec(step),
                None => !self.add_req(step),
            },
    ;
}

/// `num::One::one` for `i8`, which returns the literal `1`.
#[verifier::external_body]
fn one_i8() -> (r: i8)
    ensures
        r == 1,
{
    <i8 as num::One>::one()
}

/// `i8` walks in steps of `i8`; its rank is its value.
impl PointStep<i8> for i8 {
    open spec fn rank(self) -> int {
        self as int
    }

    open spec fn stride(step: i8) -> int {
        step as int
    }

    open spec fn representable(v: int) -> bool {
        i8::MIN <= v <= i8::MAX
    }

    proof fn lemma_order(a: Self, b: Self) {
    }

    proof fn lemma_advance(a: Self, step: i8) {
    }

    proof fn lemma_representable(a: Self, b: Self, low: int, mid: int, high: int) {
    }

    fn one() -> (r: i8) {
        one_i8()
    }

    fn moves_forward(step: i8) -> (r: bool) {
        step > 0
    }

    fn checked_step(self, step: i8) -> (r: Option<i8>) {
        self.checked_add(step)
    }
}

/// `num::One::one` for `i16`, which returns the literal `1`.
#[verifier::external_body]
fn one_i16() -> (r: i16)
    ensures
        r == 1,
{
    <i16 as num::One>::one()
}

/// `i16` walks in steps of `i16`; its rank is its value.
impl PointStep<i16> for i16 {
    open spec fn rank(self) -> int {
        self as int
    }

    open spec fn stride(step: i16) -> int {
        step as int
    }

    open spec fn representable(v: int) -> bool {
        i16::MIN <= v <= i16::MAX
    }

    proof fn lemma_order(a: Self, b: Self) {
    }

    proof fn lemma_advance(a: Self, step: i16) {
    }

    proof fn lemma_representable(a: Self, b: Self, low: int, mid: int, high: int) {
    }

    fn one() -> (r: i16) {
        one_i16()
    }

    fn moves_forward(step: i16) -> (r: bool) {
        step > 0
    }

    fn checked_step(self, step: i16) -> (r: Option<i16>) {
        self.checked_add(step)
    }
}

/// `num::One::one` for `i32`, which returns the literal `1`.
#[verifier::external_body]
fn one_i32() -> (r: i32)
    ensures
        r == 1,
{
    <i32 as num::One>::one()
}

/// `i32` walks in steps of `i32`; its rank is its value.
impl PointStep<i32> for i32 {
    open spec fn rank(self) -> int {
        self as int
    }

    open spec fn stride(step: i32) -> int {
        step as int
    }

    open spec fn representable(v: int) -> bool {
        i32::MIN <= v <= i32::MAX
    }

    proof fn lemma_order(a: Self, b: Self) {
    }

    proof fn lemma_advance(a: Self, step: i32) {
    }

    proof fn lemma_representable(a: Self, b: Self, low: int, mid: int, high: int) {
    }

    fn one() -> (r: i32) {
        one_i32()
    }

    fn moves_forward(step: i32) -> (r: bool) {
        step > 0
    }

    fn checked_step(self, step: i32) -> (r: Option<i32>) {
        self.checked_add(step)
    }
}

/// `num::One::one` for `i64`, which returns the literal `1`.
#[verifier::external_body]
fn one_i64() -> (r: i64)
    ensures
        r == 1,
{
    <i64 as num::One>::one()
}

/// `i64` walks in steps of `i64`; its rank is its value.
impl PointStep<i64> for i64 {
    open spec fn rank(self) -> int {
        self as int
    }

    open spec fn stride(step: i64) -> int {
        step as int
    }

    open spec fn representable(v: int) -> bool {
        i64::MIN <= v <= i64::MAX
    }

    proof fn lemma_order(a: Self, b: Self) {
    }

    proof fn lemma_advance(a: Self, step: i64) {
    }

    proof fn lemma_representable(a: Self, b: Self, low: int, mid: int, high: int) {
    }

    fn one() -> (r: i64) {
        one_i64()
    }

    fn moves_forward(step: i64) -> (r: bool) {
        step > 0
    }

    fn checked_step(self, step: i64) -> (r: Option<i64>) {
        self.checked_add(step)
    }
}

/// `num::One::one` for `i128`, which returns the literal `1`.
#[verifier::external_body]
fn one_i128() -> (r: i128)
    ensures
        r == 1,
{
    <i128 as num::One>::one()
}

/// `i128` walks in steps of `i128`; its rank is its value.
impl PointStep<i128> for i128 {
    open spec fn rank(self) -> int {
        self as int
    }

    open spec fn stride(step: i128) -> int {
        step as int
    }

    open spec fn representable(v: int) -> bool {
        i128::MIN <= v <= i128::MAX
    }

    proof fn lemma_order(a: Self, b: Self) {
    }

    proof fn lemma_advance(a: Self, step: i128) {
    }

    proof fn lemma_representable(a: Self, b: Self, low: int, mid: int, high: int) {
    }

    fn one() -> (r: i128) {
        one_i128()
    }

    fn moves_forward(step: i128) -> (r: bool) {
        step > 0
    }

    fn checked_step(self, step: i128) -> (r: Option<i128>) {
        self.checked_add(step)
    }
}

/// `num::One::one` for `isize`, which returns the literal `1`.
#[verifier::external_body]
fn one_isize() -> (r: isize)
    ensures
        r == 1,
{
    <isize as num::One>::one()
}

/// `isize` walks in steps of `isize`; its rank is its value.
impl PointStep<isize> for isize {
    open spec fn rank(self) -> int {
        self as int
    }

    open spec fn stride(step: isize) -> int {
        step as int
    }

    open spec fn representable(v: int) -> bool {
        isize::MIN <= v <= isize::MAX
    }

    proof fn lemma_order(a: Self, b: Self) {
    }

    proof fn lemma_advance(a: Self, step: isize) {
    }

    proof fn lemma_representable(a: Self, b: Self, low: int, mid: int, high: int) {
    }

    fn one() -> (r: isize) {
        one_isize()
    }

    fn moves_forward(step: isize) -> (r: bool) {
        step > 0
    }

    fn checked_step(self, step: isize) -> (r: Option<isize>) {
        self.checked_add(step)
    }
}

/// `num::One::one` for `u8`, which returns the literal `1`.
#[verifier::external_body]
fn one_u8() -> (r: u8)
    ensures
        r == 1,
{
    <u8 as num::One>::one()
}

/// `u8` walks in steps of `u8`; its rank is its value.
impl PointStep<u8> for u8 {
    open spec fn rank(self) -> int {
        self as int
    }

    open spec fn stride(step: u8) -> int {
        step as int
    }

    open spec fn representable(v: int) -> bool {
        u8::MIN <= v <= u8::MAX
    }

    proof fn lemma_order(a: Self, b: Self) {
    }

    proof fn lemma_advance(a: Self, step: u8) {
    }

    proof fn lemma_representable(a: Self, b: Self, low: int, mid: int, high: int) {
    }

    fn one() -> (r: u8) {
        one_u8()
    }

    fn moves_forward(step: u8) -> (r: bool) {
        step > 0
    }

    fn checked_step(self, step: u8) -> (r: Option<u8>) {
        self.checked_add(step)
    }
}

/// `num::One::one` for `u16`, which returns the literal `1`.
#[verifier::external_body]
fn one_u16() -> (r: u16)
    ensures
        r == 1,
{
    <u16 as num::One>::one()
}

/// `u16` walks in steps of `u16`; its rank is its value.
impl PointStep<u16> for u16 {
    open spec fn rank(self) -> int {
        self as int
    }

    open spec fn stride(step: u16) -> int {
        step as int
    }

    open spec fn representable(v: int) -> bool {
        u16::MIN <= v <= u16::MAX
    }

    proof fn lemma_order(a: Self, b: Self) {
    }

    proof fn lemma_advance(a: Self, step: u16) {
    }

    proof fn lemma_representable(a: Self, b: Self, low: int, mid: int, high: int) {
    }

    fn one() -> (r: u16) {
        one_u16()
    }

    fn moves_forward(step: u16) -> (r: bool) {
        step > 0
    }

    fn checked_step(self, step: u16) -> (r: Option<u16>) {
        self.checked_add(step)
    }
}

/// `num::One::one` for `u32`, which returns the literal `1`.
#[verifier::external_body]
fn one_u32() -> (r: u32)
    ensures
        r == 1,
{
    <u32 as num::One>::one()
}

/// `u32` walks in steps of `u32`; its rank is its value.
impl PointStep<u32> for u32 {
    open spec fn rank(self) -> int {
        self as int
    }

    open spec fn stride(step: u32) -> int {
        step as int
    }

    open spec fn representable(v: int) -> bool {
        u32::MIN <= v <= u32::MAX
    }

    proof fn lemma_order(a: Self, b: Self) {
    }

    proof fn lemma_advance(a: Self, step: u32) {
    }

    proof fn lemma_representable(a: Self, b: Self, low: int, mid: int, high: int) {
    }

    fn one() -> (r: u32) {
        one_u32()
    }

    fn moves_forward(step: u32) -> (r: bool) {
        step > 0
    }

    fn checked_step(self, step: u32) -> (r: Option<u32>) {
        self.checked_add(step)
    }
}

/// `num::One::one` for `u64`, which returns the literal `1`.
#[verifier::external_body]
fn one_u64() -> (r: u64)
    ensures
        r == 1,
{
    <u64 as num::One>::one()
}

/// `u64` walks in steps of `u64`; its rank is its value.
impl PointStep<u64> for u64 {
    open spec fn rank(self) -> int {
        self as int
    }

    open spec fn stride(step: u64) -> int {
        step as int
    }

    open spec fn representable(v: int) -> bool {
        u64::MIN <= v <= u64::MAX
    }

    proof fn lemma_order(a: Self, b: Self) {
    }

    proof fn lemma_advance(a: Self, step: u64) {
    }

    proof fn lemma_representable(a: Self, b: Self, low: int, mid: int, high: int) {
    }

    fn one() -> (r: u64) {
        one_u64()
    }

    fn moves_forward(step: u64) -> (r: bool) {
        step > 0
    }

    fn checked_step(self, step: u64) -> (r: Option<u64>) {
        self.checked_add(step)
    }
}

/// `num::One::one` for `u128`, which returns the literal `1`.
#[verifier::external_body]
fn one_u128() -> (r: u128)
    ensures
        r == 1,
{
    <u128 as num::One>::one()
}

/// `u128` walks in steps of `u128`; its rank is its value.
impl PointStep<u128> for u128 {
    open spec fn rank(self) -> int {
        self as int
    }

    open spec fn stride(step: u128) -> int {
        step as int
    }

    open spec fn representable(v: int) -> bool {
        u128::MIN <= v <= u128::MAX
    }

    proof fn lemma_order(a: Self, b: Self) {
    }

    proof fn lemma_advance(a: Self, step: u128) {
    }

    proof fn lemma_representable(a: Self, b: Self, low: int, mid: int, high: int) {
    }

    fn one() -> (r: u128) {
        one_u128()
    }

    fn moves_forward(step: u128) -> (r: bool) {
        step > 0
    }

    fn checked_step(self, step: u128) -> (r: Option<u128>) {
        self.checked_add(step)
    }
}

/// `num::One::one` for `usize`, which returns the literal `1`.
#[verifier::external_body]
fn one_usize() -> (r: usize)
    ensures
        r == 1,
{
    <usize as num::One>::one()
}

/// `usize` walks in steps of `usize`; its rank is its value.
impl PointStep<usize> for usize {
    open spec fn rank(self) -> int {
        self as int
    }

    open spec fn stride(step: usize) -> int {
        step as int
    }

    open spec fn representable(v: int) -> bool {
        usize::MIN <= v <= usize::MAX
    }

    proof fn lemma_order(a: Self, b: Self) {
    }

    proof fn lemma_advance(a: Self, step: usize) {
    }

    proof fn lemma_representable(a: Self, b: Self, low: int, mid: int, high: int) {
    }

    fn one() -> (r: usize) {
        one_usize()
    }

    fn moves_forward(step: usize) -> (r: bool) {
        step > 0
    }

    fn checked_step(self, step: usize) -> (r: Option<usize>) {
        self.checked_add(step)
    }
}

} // verus!
