//! Scalars with an additive identity.
use vstd::prelude::*;
use crate::coord::Primitive;

verus! {

/// A scalar with an additive identity.
pub trait Zero: Primitive {
    /// Whether the scalar is the additive identity.
    spec fn is_zero_value(self) -> bool;

    /// The additive identity.
    fn zero() -> (r: Self)
        ensures
            r.is_zero_value(),
    ;

    /// Whether `self` is the additive identity.
    fn is_zero(&self) -> (r: bool)
        ensures
            r == self.is_zero_value(),
    ;
}

/// `num::Zero::zero` for `i8`, which returns the literal `0`.
#[verifier::external_body]
fn zero_i8() -> (r: i8)
    ensures
        r == 0,
{
    <i8 as num::Zero>::zero()
}

/// `num::Zero::is_zero` for `i8`, which compares with the literal `0`.
#[verifier::external_body]
fn is_zero_i8(v: &i8) -> (r: bool)
    ensures
        r == (*v == 0),
{
    <i8 as num::Zero>::is_zero(v)
}

impl Zero for i8 {
    open spec fn is_zero_value(self) -> bool {
        self == 0
    }

    fn zero() -> (r: i8) {
        zero_i8()
    }

    fn is_zero(&self) -> (r: bool) {
        is_zero_i8(self)
    }
}

/// `num::Zero::zero` for `i16`, which returns the literal `0`.
#[verifier::external_body]
fn zero_i16() -> (r: i16)
    ensures
        r == 0,
{
    <i16 as num::Zero>::zero()
}

/// `num::Zero::is_zero` for `i16`, which compares with the literal `0`.
#[verifier::external_body]
fn is_zero_i16(v: &i16) -> (r: bool)
    ensures
        r == (*v == 0),
{
    <i16 as num::Zero>::is_zero(v)
}

impl Zero for i16 {
    open spec fn is_zero_value(self) -> bool {
        self == 0
    }

    fn zero() -> (r: i16) {
        zero_i16()
    }

    fn is_zero(&self) -> (r: bool) {
        is_zero_i16(self)
    }
}

/// `num::Zero::zero` for `i32`, which returns the literal `0`.
#[verifier::external_body]
fn zero_i32() -> (r: i32)
    ensures
        r == 0,
{
    <i32 as num::Zero>::zero()
}

/// `num::Zero::is_zero` for `i32`, which compares with the literal `0`.
#[verifier::external_body]
fn is_zero_i32(v: &i32) -> (r: bool)
    ensures
        r == (*v == 0),
{
    <i32 as num::Zero>::is_zero(v)
}

impl Zero for i32 {
    open spec fn is_zero_value(self) -> bool {
        self == 0
    }

    fn zero() -> (r: i32) {
        zero_i32()
    }

    fn is_zero(&self) -> (r: bool) {
        is_zero_i32(self)
    }
}

/// `num::Zero::zero` for `i64`, which returns the literal `0`.
#[verifier::external_body]
fn zero_i64() -> (r: i64)
    ensures
        r == 0,
{
    <i64 as num::Zero>::zero()
}

/// `num::Zero::is_zero` for `i64`, which compares with the literal `0`.
#[verifier::external_body]
fn is_zero_i64(v: &i64) -> (r: bool)
    ensures
        r == (*v == 0),
{
    <i64 as num::Zero>::is_zero(v)
}

impl Zero for i64 {
    open spec fn is_zero_value(self) -> bool {
        self == 0
    }

    fn zero() -> (r: i64) {
        zero_i64()
    }

    fn is_zero(&self) -> (r: bool) {
        is_zero_i64(self)
    }
}

/// `num::Zero::zero` for `i128`, which returns the literal `0`.
#[verifier::external_body]
fn zero_i128() -> (r: i128)
    ensures
        r == 0,
{
    <i128 as num::Zero>::zero()
}

/// `num::Zero::is_zero` for `i128`, which compares with the literal `0`.
#[verifier::external_body]
fn is_zero_i128(v: &i128) -> (r: bool)
    ensures
        r == (*v == 0),
{
    <i128 as num::Zero>::is_zero(v)
}

impl Zero for i128 {
    open spec fn is_zero_value(self) -> bool {
        self == 0
    }

    fn zero() -> (r: i128) {
        zero_i128()
    }

    fn is_zero(&self) -> (r: bool) {
        is_zero_i128(self)
    }
}

/// `num::Zero::zero` for `isize`, which returns the literal `0`.
#[verifier::external_body]
fn zero_isize() -> (r: isize)
    ensures
        r == 0,
{
    <isize as num::Zero>::zero()
}

/// `num::Zero::is_zero` for `isize`, which compares with the literal `0`.
#[verifier::external_body]
fn is_zero_isize(v: &isize) -> (r: bool)
    ensures
        r == (*v == 0),
{
    <isize as num::Zero>::is_zero(v)
}

impl Zero for isize {
    open spec fn is_zero_value(self) -> bool {
        self == 0
    }

    fn zero() -> (r: isize) {
        zero_isize()
    }

    fn is_zero(&self) -> (r: bool) {
        is_zero_isize(self)
    }
}

/// `num::Zero::zero` for `u8`, which returns the literal `0`.
#[verifier::external_body]
fn zero_u8() -> (r: u8)
    ensures
        r == 0,
{
    <u8 as num::Zero>::zero()
}

/// `num::Zero::is_zero` for `u8`, which compares with the literal `0`.
#[verifier::external_body]
fn is_zero_u8(v: &u8) -> (r: bool)
    ensures
        r == (*v == 0),
{
    <u8 as num::Zero>::is_zero(v)
}

impl Zero for u8 {
    open spec fn is_zero_value(self) -> bool {
        self == 0
    }

    fn zero() -> (r: u8) {
        zero_u8()
    }

    fn is_zero(&self) -> (r: bool) {
        is_zero_u8(self)
    }
}

/// `num::Zero::zero` for `u16`, which returns the literal `0`.
#[verifier::external_body]
fn zero_u16() -> (r: u16)
    ensures
        r == 0,
{
    <u16 as num::Zero>::zero()
}

/// `num::Zero::is_zero` for `u16`, which compares with the literal `0`.
#[verifier::external_body]
fn is_zero_u16(v: &u16) -> (r: bool)
    ensures
        r == (*v == 0),
{
    <u16 as num::Zero>::is_zero(v)
}

impl Zero for u16 {
    open spec fn is_zero_value(self) -> bool {
        self == 0
    }

    fn zero() -> (r: u16) {
        zero_u16()
    }

    fn is_zero(&self) -> (r: bool) {
        is_zero_u16(self)
    }
}

/// `num::Zero::zero` for `u32`, which returns the literal `0`.
#[verifier::external_body]
fn zero_u32() -> (r: u32)
    ensures
        r == 0,
{
    <u32 as num::Zero>::zero()
}

/// `num::Zero::is_zero` for `u32`, which compares with the literal `0`.
#[verifier::external_body]
fn is_zero_u32(v: &u32) -> (r: bool)
    ensures
        r == (*v == 0),
{
    <u32 as num::Zero>::is_zero(v)
}

impl Zero for u32 {
    open spec fn is_zero_value(self) -> bool {
        self == 0
    }

    fn zero() -> (r: u32) {
        zero_u32()
    }

    fn is_zero(&self) -> (r: bool) {
        is_zero_u32(self)
    }
}

/// `num::Zero::zero` for `u64`, which returns the literal `0`.
#[verifier::external_body]
fn zero_u64() -> (r: u64)
    ensures
        r == 0,
{
    <u64 as num::Zero>::zero()
}

/// `num::Zero::is_zero` for `u64`, which compares with the literal `0`.
#[verifier::external_body]
fn is_zero_u64(v: &u64) -> (r: bool)
    ensures
        r == (*v == 0),
{
    <u64 as num::Zero>::is_zero(v)
}

impl Zero for u64 {
    open spec fn is_zero_value(self) -> bool {
        self == 0
    }

    fn zero() -> (r: u64) {
        zero_u64()
    }

    fn is_zero(&self) -> (r: bool) {
        is_zero_u64(self)
    }
}

/// `num::Zero::zero` for `u128`, which returns the literal `0`.
#[verifier::external_body]
fn zero_u128() -> (r: u128)
    ensures
        r == 0,
{
    <u128 as num::Zero>::zero()
}

/// `num::Zero::is_zero` for `u128`, which compares with the literal `0`.
#[verifier::external_body]
fn is_zero_u128(v: &u128) -> (r: bool)
    ensures
        r == (*v == 0),
{
    <u128 as num::Zero>::is_zero(v)
}

impl Zero for u128 {
    open spec fn is_zero_value(self) -> bool {
        self == 0
    }

    fn zero() -> (r: u128) {
        zero_u128()
    }

    fn is_zero(&self) -> (r: bool) {
        is_zero_u128(self)
    }
}

/// `num::Zero::zero` for `usize`, which returns the literal `0`.
#[verifier::external_body]
fn zero_usize() -> (r: usize)
    ensures
        r == 0,
{
    <usize as num::Zero>::zero()
}

/// `num::Zero::is_zero` for `usize`, which compares with the literal `0`.
#[verifier::external_body]
fn is_zero_usize(v: &usize) -> (r: bool)
    ensures
        r == (*v == 0),
{
    <usize as num::Zero>::is_zero(v)
}

impl Zero for usize {
    open spec fn is_zero_value(self) -> bool {
        self == 0
    }

    fn zero() -> (r: usize) {
        zero_usize()
    }

    fn is_zero(&self) -> (r: bool) {
        is_zero_usize(self)
    }
}

} // verus!
