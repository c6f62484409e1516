//! The primitive integers as scalars.
//!
//! Their arithmetic wraps: every operation is total, the sum and the product
//! are those of the integers modulo two to the width of the type, and the
//! laws of a ring hold without exception. Negation is subtraction from zero
//! for the unsigned types as for the signed ones, and the least value of a
//! signed type is its own negation. Powers are taken by `Ring::pow` as it
//! stands, one factor at a time.
use crate::math::{Additive, Exact, ExactRing, Module, Ring};
use vstd::prelude::*;

verus! {

impl Additive for usize {
    const ZERO: usize = 0;

    open spec fn plus(self, n: usize) -> usize {
        self.wrapping_add(n)
    }

    open spec fn negated(self) -> usize {
        0usize.wrapping_sub(self)
    }

    fn add(self, n: usize) -> (r: usize)
        ensures
            r == self.wrapping_add(n),
    {
        self.wrapping_add(n)
    }

    fn sub(self, n: usize) -> (r: usize)
        ensures
            r == self.wrapping_sub(n),
    {
        self.wrapping_sub(n)
    }

    fn neg(self) -> (r: usize)
        ensures
            r == 0usize.wrapping_sub(self),
    {
        0usize.wrapping_sub(self)
    }
}

impl Ring for usize {
    const ONE: usize = 1;

    open spec fn times(self, n: usize) -> usize {
        self.wrapping_mul(n)
    }

    fn mul(self, n: usize) -> (r: usize)
        ensures
            r == self.wrapping_mul(n),
    {
        self.wrapping_mul(n)
    }
}

impl Module<usize> for usize {
    open spec fn scaled(self, n: usize) -> usize {
        self.wrapping_mul(n)
    }

    fn scale(self, n: usize) -> (r: usize)
        ensures
            r == self.wrapping_mul(n),
    {
        self.wrapping_mul(n)
    }
}

impl Exact for usize {
    proof fn lemma_zero_is_identity(x: usize) {
    }

    proof fn lemma_add_then_sub(a: usize, b: usize) {
    }
}

impl ExactRing for usize {
    proof fn lemma_one_is_identity(x: usize) {
        vstd::arithmetic::div_mod::lemma_small_mod(x as nat, (usize::MAX - usize::MIN + 1) as nat);
    }
}

impl Additive for u8 {
    const ZERO: u8 = 0;

    open spec fn plus(self, n: u8) -> u8 {
        self.wrapping_add(n)
    }

    open spec fn negated(self) -> u8 {
        0u8.wrapping_sub(self)
    }

    fn add(self, n: u8) -> (r: u8)
        ensures
            r == self.wrapping_add(n),
    {
        self.wrapping_add(n)
    }

    fn sub(self, n: u8) -> (r: u8)
        ensures
            r == self.wrapping_sub(n),
    {
        self.wrapping_sub(n)
    }

    fn neg(self) -> (r: u8)
        ensures
            r == 0u8.wrapping_sub(self),
    {
        0u8.wrapping_sub(self)
    }
}

impl Ring for u8 {
    const ONE: u8 = 1;

    open spec fn times(self, n: u8) -> u8 {
        self.wrapping_mul(n)
    }

    fn mul(self, n: u8) -> (r: u8)
        ensures
            r == self.wrapping_mul(n),
    {
        self.wrapping_mul(n)
    }
}

impl Module<u8> for u8 {
    open spec fn scaled(self, n: u8) -> u8 {
        self.wrapping_mul(n)
    }

    fn scale(self, n: u8) -> (r: u8)
        ensures
            r == self.wrapping_mul(n),
    {
        self.wrapping_mul(n)
    }
}

impl Exact for u8 {
    proof fn lemma_zero_is_identity(x: u8) {
    }

    proof fn lemma_add_then_sub(a: u8, b: u8) {
    }
}

impl ExactRing for u8 {
    proof fn lemma_one_is_identity(x: u8) {
    }
}

impl Additive for u16 {
    const ZERO: u16 = 0;

    open spec fn plus(self, n: u16) -> u16 {
        self.wrapping_add(n)
    }

    open spec fn negated(self) -> u16 {
        0u16.wrapping_sub(self)
    }

    fn add(self, n: u16) -> (r: u16)
        ensures
            r == self.wrapping_add(n),
    {
        self.wrapping_add(n)
    }

    fn sub(self, n: u16) -> (r: u16)
        ensures
            r == self.wrapping_sub(n),
    {
        self.wrapping_sub(n)
    }

    fn neg(self) -> (r: u16)
        ensures
            r == 0u16.wrapping_sub(self),
    {
        0u16.wrapping_sub(self)
    }
}

impl Ring for u16 {
    const ONE: u16 = 1;

    open spec fn times(self, n: u16) -> u16 {
        self.wrapping_mul(n)
    }

    fn mul(self, n: u16) -> (r: u16)
        ensures
            r == self.wrapping_mul(n),
    {
        self.wrapping_mul(n)
    }
}

impl Module<u16> for u16 {
    open spec fn scaled(self, n: u16) -> u16 {
        self.wrapping_mul(n)
    }

    fn scale(self, n: u16) -> (r: u16)
        ensures
            r == self.wrapping_mul(n),
    {
        self.wrapping_mul(n)
    }
}

impl Exact for u16 {
    proof fn lemma_zero_is_identity(x: u16) {
    }

    proof fn lemma_add_then_sub(a: u16, b: u16) {
    }
}

impl ExactRing for u16 {
    proof fn lemma_one_is_identity(x: u16) {
    }
}

impl Additive for u32 {
    const ZERO: u32 = 0;

    open spec fn plus(self, n: u32) -> u32 {
        self.wrapping_add(n)
    }

    open spec fn negated(self) -> u32 {
        0u32.wrapping_sub(self)
    }

    fn add(self, n: u32) -> (r: u32)
        ensures
            r == self.wrapping_add(n),
    {
        self.wrapping_add(n)
    }

    fn sub(self, n: u32) -> (r: u32)
        ensures
            r == self.wrapping_sub(n),
    {
        self.wrapping_sub(n)
    }

    fn neg(self) -> (r: u32)
        ensures
            r == 0u32.wrapping_sub(self),
    {
        0u32.wrapping_sub(self)
    }
}

impl Ring for u32 {
    const ONE: u32 = 1;

    open spec fn times(self, n: u32) -> u32 {
        self.wrapping_mul(n)
    }

    fn mul(self, n: u32) -> (r: u32)
        ensures
            r == self.wrapping_mul(n),
    {
        self.wrapping_mul(n)
    }
}

impl Module<u32> for u32 {
    open spec fn scaled(self, n: u32) -> u32 {
        self.wrapping_mul(n)
    }

    fn scale(self, n: u32) -> (r: u32)
        ensures
            r == self.wrapping_mul(n),
    {
        self.wrapping_mul(n)
    }
}

impl Exact for u32 {
    proof fn lemma_zero_is_identity(x: u32) {
    }

    proof fn lemma_add_then_sub(a: u32, b: u32) {
    }
}

impl ExactRing for u32 {
    proof fn lemma_one_is_identity(x: u32) {
    }
}

impl Additive for u64 {
    const ZERO: u64 = 0;

    open spec fn plus(self, n: u64) -> u64 {
        self.wrapping_add(n)
    }

    open spec fn negated(self) -> u64 {
        0u64.wrapping_sub(self)
    }

    fn add(self, n: u64) -> (r: u64)
        ensures
            r == self.wrapping_add(n),
    {
        self.wrapping_add(n)
    }

    fn sub(self, n: u64) -> (r: u64)
        ensures
            r == self.wrapping_sub(n),
    {
        self.wrapping_sub(n)
    }

    fn neg(self) -> (r: u64)
        ensures
            r == 0u64.wrapping_sub(self),
    {
        0u64.wrapping_sub(self)
    }
}

impl Ring for u64 {
    const ONE: u64 = 1;

    open spec fn times(self, n: u64) -> u64 {
        self.wrapping_mul(n)
    }

    fn mul(self, n: u64) -> (r: u64)
        ensures
            r == self.wrapping_mul(n),
    {
        self.wrapping_mul(n)
    }
}

impl Module<u64> for u64 {
    open spec fn scaled(self, n: u64) -> u64 {
        self.wrapping_mul(n)
    }

    fn scale(self, n: u64) -> (r: u64)
        ensures
            r == self.wrapping_mul(n),
    {
        self.wrapping_mul(n)
    }
}

impl Exact for u64 {
    proof fn lemma_zero_is_identity(x: u64) {
    }

    proof fn lemma_add_then_sub(a: u64, b: u64) {
    }
}

impl ExactRing for u64 {
    proof fn lemma_one_is_identity(x: u64) {
    }
}

impl Additive for isize {
    const ZERO: isize = 0;

    open spec fn plus(self, n: isize) -> isize {
        self.wrapping_add(n)
    }

    open spec fn negated(self) -> isize {
        0isize.wrapping_sub(self)
    }

    fn add(self, n: isize) -> (r: isize)
        ensures
            r == self.wrapping_add(n),
    {
        self.wrapping_add(n)
    }

    fn sub(self, n: isize) -> (r: isize)
        ensures
            r == self.wrapping_sub(n),
    {
        self.wrapping_sub(n)
    }

    fn neg(self) -> (r: isize)
        ensures
            r == 0isize.wrapping_sub(self),
    {
        0isize.wrapping_sub(self)
    }
}

impl Ring for isize {
    const ONE: isize = 1;

    open spec fn times(self, n: isize) -> isize {
        self.wrapping_mul(n)
    }

    fn mul(self, n: isize) -> (r: isize)
        ensures
            r == self.wrapping_mul(n),
    {
        self.wrapping_mul(n)
    }
}

impl Module<isize> for isize {
    open spec fn scaled(self, n: isize) -> isize {
        self.wrapping_mul(n)
    }

    fn scale(self, n: isize) -> (r: isize)
        ensures
            r == self.wrapping_mul(n),
    {
        self.wrapping_mul(n)
    }
}

impl Exact for isize {
    proof fn lemma_zero_is_identity(x: isize) {
    }

    proof fn lemma_add_then_sub(a: isize, b: isize) {
    }
}

impl ExactRing for isize {
    proof fn lemma_one_is_identity(x: isize) {
        let range: int = usize::MAX - usize::MIN + 1;
        if x >= 0 {
            vstd::arithmetic::div_mod::lemma_small_mod(x as nat, range as nat);
        } else {
            vstd::arithmetic::div_mod::lemma_small_mod((x + range) as nat, range as nat);
            vstd::arithmetic::div_mod::lemma_mod_add_multiples_vanish(x as int, range);
        }
    }
}

impl Additive for i8 {
    const ZERO: i8 = 0;

    open spec fn plus(self, n: i8) -> i8 {
        self.wrapping_add(n)
    }

    open spec fn negated(self) -> i8 {
        0i8.wrapping_sub(self)
    }

    fn add(self, n: i8) -> (r: i8)
        ensures
            r == self.wrapping_add(n),
    {
        self.wrapping_add(n)
    }

    fn sub(self, n: i8) -> (r: i8)
        ensures
            r == self.wrapping_sub(n),
    {
        self.wrapping_sub(n)
    }

    fn neg(self) -> (r: i8)
        ensures
            r == 0i8.wrapping_sub(self),
    {
        0i8.wrapping_sub(self)
    }
}

impl Ring for i8 {
    const ONE: i8 = 1;

    open spec fn times(self, n: i8) -> i8 {
        self.wrapping_mul(n)
    }

    fn mul(self, n: i8) -> (r: i8)
        ensures
            r == self.wrapping_mul(n),
    {
        self.wrapping_mul(n)
    }
}

impl Module<i8> for i8 {
    open spec fn scaled(self, n: i8) -> i8 {
        self.wrapping_mul(n)
    }

    fn scale(self, n: i8) -> (r: i8)
        ensures
            r == self.wrapping_mul(n),
    {
        self.wrapping_mul(n)
    }
}

impl Exact for i8 {
    proof fn lemma_zero_is_identity(x: i8) {
    }

    proof fn lemma_add_then_sub(a: i8, b: i8) {
    }
}

impl ExactRing for i8 {
    proof fn lemma_one_is_identity(x: i8) {
    }
}

impl Additive for i16 {
    const ZERO: i16 = 0;

    open spec fn plus(self, n: i16) -> i16 {
        self.wrapping_add(n)
    }

    open spec fn negated(self) -> i16 {
        0i16.wrapping_sub(self)
    }

    fn add(self, n: i16) -> (r: i16)
        ensures
            r == self.wrapping_add(n),
    {
        self.wrapping_add(n)
    }

    fn sub(self, n: i16) -> (r: i16)
        ensures
            r == self.wrapping_sub(n),
    {
        self.wrapping_sub(n)
    }

    fn neg(self) -> (r: i16)
        ensures
            r == 0i16.wrapping_sub(self),
    {
        0i16.wrapping_sub(self)
    }
}

impl Ring for i16 {
    const ONE: i16 = 1;

    open spec fn times(self, n: i16) -> i16 {
        self.wrapping_mul(n)
    }

    fn mul(self, n: i16) -> (r: i16)
        ensures
            r == self.wrapping_mul(n),
    {
        self.wrapping_mul(n)
    }
}

impl Module<i16> for i16 {
    open spec fn scaled(self, n: i16) -> i16 {
        self.wrapping_mul(n)
    }

    fn scale(self, n: i16) -> (r: i16)
        ensures
            r == self.wrapping_mul(n),
    {
        self.wrapping_mul(n)
    }
}

impl Exact for i16 {
    proof fn lemma_zero_is_identity(x: i16) {
    }

    proof fn lemma_add_then_sub(a: i16, b: i16) {
    }
}

impl ExactRing for i16 {
    proof fn lemma_one_is_identity(x: i16) {
    }
}

impl Additive for i32 {
    const ZERO: i32 = 0;

    open spec fn plus(self, n: i32) -> i32 {
        self.wrapping_add(n)
    }

    open spec fn negated(self) -> i32 {
        0i32.wrapping_sub(self)
    }

    fn add(self, n: i32) -> (r: i32)
        ensures
            r == self.wrapping_add(n),
    {
        self.wrapping_add(n)
    }

    fn sub(self, n: i32) -> (r: i32)
        ensures
            r == self.wrapping_sub(n),
    {
        self.wrapping_sub(n)
    }

    fn neg(self) -> (r: i32)
        ensures
            r == 0i32.wrapping_sub(self),
    {
        0i32.wrapping_sub(self)
    }
}

impl Ring for i32 {
    const ONE: i32 = 1;

    open spec fn times(self, n: i32) -> i32 {
        self.wrapping_mul(n)
    }

    fn mul(self, n: i32) -> (r: i32)
        ensures
            r == self.wrapping_mul(n),
    {
        self.wrapping_mul(n)
    }
}

impl Module<i32> for i32 {
    open spec fn scaled(self, n: i32) -> i32 {
        self.wrapping_mul(n)
    }

    fn scale(self, n: i32) -> (r: i32)
        ensures
            r == self.wrapping_mul(n),
    {
        self.wrapping_mul(n)
    }
}

impl Exact for i32 {
    proof fn lemma_zero_is_identity(x: i32) {
    }

    proof fn lemma_add_then_sub(a: i32, b: i32) {
    }
}

impl ExactRing for i32 {
    proof fn lemma_one_is_identity(x: i32) {
    }
}

impl Additive for i64 {
    const ZERO: i64 = 0;

    open spec fn plus(self, n: i64) -> i64 {
        self.wrapping_add(n)
    }

    open spec fn negated(self) -> i64 {
        0i64.wrapping_sub(self)
    }

    fn add(self, n: i64) -> (r: i64)
        ensures
            r == self.wrapping_add(n),
    {
        self.wrapping_add(n)
    }

    fn sub(self, n: i64) -> (r: i64)
        ensures
            r == self.wrapping_sub(n),
    {
        self.wrapping_sub(n)
    }

    fn neg(self) -> (r: i64)
        ensures
            r == 0i64.wrapping_sub(self),
    {
        0i64.wrapping_sub(self)
    }
}

impl Ring for i64 {
    const ONE: i64 = 1;

    open spec fn times(self, n: i64) -> i64 {
        self.wrapping_mul(n)
    }

    fn mul(self, n: i64) -> (r: i64)
        ensures
            r == self.wrapping_mul(n),
    {
        self.wrapping_mul(n)
    }
}

impl Module<i64> for i64 {
    open spec fn scaled(self, n: i64) -> i64 {
        self.wrapping_mul(n)
    }

    fn scale(self, n: i64) -> (r: i64)
        ensures
            r == self.wrapping_mul(n),
    {
        self.wrapping_mul(n)
    }
}

impl Exact for i64 {
    proof fn lemma_zero_is_identity(x: i64) {
    }

    proof fn lemma_add_then_sub(a: i64, b: i64) {
    }
}

impl ExactRing for i64 {
    proof fn lemma_one_is_identity(x: i64) {
    }
}

/// The identities of every integer scalar are the numbers 0 and 1.
pub proof fn lemma_integer_identities()
    ensures
        <usize as Additive>::ZERO == 0,
        <usize as Ring>::ONE == 1,
        <u8 as Additive>::ZERO == 0,
        <u8 as Ring>::ONE == 1,
        <u16 as Additive>::ZERO == 0,
        <u16 as Ring>::ONE == 1,
        <u32 as Additive>::ZERO == 0,
        <u32 as Ring>::ONE == 1,
        <u64 as Additive>::ZERO == 0,
        <u64 as Ring>::ONE == 1,
        <isize as Additive>::ZERO == 0,
        <isize as Ring>::ONE == 1,
        <i8 as Additive>::ZERO == 0,
        <i8 as Ring>::ONE == 1,
        <i16 as Additive>::ZERO == 0,
        <i16 as Ring>::ONE == 1,
        <i32 as Additive>::ZERO == 0,
        <i32 as Ring>::ONE == 1,
        <i64 as Additive>::ZERO == 0,
        <i64 as Ring>::ONE == 1,
{
}

} // verus!
