//! Bindings of the primitive integer types to the numeric capabilities and
//! to the `Pow` operator: one `Monoid` and one `CheckedMul` impl per base
//! type, and one `Pow` impl per (base type, exponent type) pair and calling
//! shape, so that generic code may hold either operand by value or by
//! read-only reference.
//!
//! Multiplication of the bound types wraps around, so `pow` on them is total
//! and returns the iterative product under two's-complement semantics, as
//! `wrapping_mul` defines it; `checked_pow` reports overflow instead.

use vstd::prelude::*;

verus! {

use crate::modular::lemma_isize_window;
use crate::modular::lemma_mod_mul_assoc;
use crate::modular::lemma_mod_mul_bound;
use crate::modular::lemma_mod_mul_identity;
use crate::modular::lemma_mod_small_value;
use crate::modular::lemma_wrap_signed_bound;
use crate::modular::lemma_wrap_signed_mul_assoc;
use crate::modular::lemma_wrap_signed_mul_identity;
use crate::modular::lemma_wrap_signed_small;
use crate::modular::wrap_signed;
use crate::monoid::CheckedMul;
use crate::monoid::Monoid;
use crate::monoid::lemma_pow_value_in_range;
use crate::monoid::pow_value;
use crate::pow::Pow;
use crate::pow::pow;

impl Monoid for u8 {
    open spec fn value(&self) -> int {
        *self as int
    }

    open spec fn in_range(v: int) -> bool {
        0 <= v <= u8::MAX as int
    }

    open spec fn mul_value(a: int, b: int) -> int {
        (a * b) % (0x100)
    }

    proof fn lemma_value_in_range(&self) {
    }

    proof fn lemma_one_in_range() {
    }

    proof fn lemma_mul_in_range(a: int, b: int) {
        lemma_mod_mul_bound(a, b, 0x100);
    }

    proof fn lemma_mul_assoc(a: int, b: int, c: int) {
        lemma_mod_mul_assoc(a, b, c, 0x100);
    }

    proof fn lemma_mul_exact(a: int, b: int) {
        lemma_mod_small_value(a * b, 0x100);
    }

    proof fn lemma_one_identity(a: int) {
        lemma_mod_mul_identity(a, 0x100);
    }

    fn one() -> (r: Self) {
        1u8
    }

    fn duplicate(&self) -> (r: Self) {
        *self
    }

    fn multiply(self, rhs: Self) -> (r: Self) {
        self.wrapping_mul(rhs)
    }
}

impl CheckedMul for u8 {
    fn checked_mul(&self, rhs: &Self) -> (r: Option<Self>) {
        proof {
            vstd::arithmetic::mul::lemma_mul_nonnegative(*self as int, *rhs as int);
        }
        u8::checked_mul(*self, *rhs)
    }
}

/// What raising a `u8` to a power returns: the iterative wrap-around
/// product, brought back into the type.
pub open spec fn pow_spec_u8(b: u8, e: nat) -> u8 {
    pow_value::<u8>(b as int, e) as u8
}

fn pow_u8(b: u8, e: usize) -> (r: u8)
    ensures
        r == pow_spec_u8(b, e as nat),
{
    let r = pow(b, e);
    proof {
        lemma_pow_value_in_range::<u8>(b as int, e as nat);
    }
    r
}

impl Pow<u8> for u8 {
    type Output = u8;

    open spec fn pow_spec(self, rhs: u8) -> u8 {
        pow_spec_u8(self, rhs as nat)
    }

    fn pow(self, rhs: u8) -> (r: u8) {
        pow_u8(self, rhs as usize)
    }
}

impl<'a> Pow<&'a u8> for u8 {
    type Output = u8;

    open spec fn pow_spec(self, rhs: &'a u8) -> u8 {
        pow_spec_u8(self, *rhs as nat)
    }

    fn pow(self, rhs: &'a u8) -> (r: u8) {
        pow_u8(self, *rhs as usize)
    }
}

impl<'a> Pow<u8> for &'a u8 {
    type Output = u8;

    open spec fn pow_spec(self, rhs: u8) -> u8 {
        pow_spec_u8(*self, rhs as nat)
    }

    fn pow(self, rhs: u8) -> (r: u8) {
        pow_u8(*self, rhs as usize)
    }
}

impl<'a, 'b> Pow<&'a u8> for &'b u8 {
    type Output = u8;

    open spec fn pow_spec(self, rhs: &'a u8) -> u8 {
        pow_spec_u8(*self, *rhs as nat)
    }

    fn pow(self, rhs: &'a u8) -> (r: u8) {
        pow_u8(*self, *rhs as usize)
    }
}

impl Pow<u16> for u8 {
    type Output = u8;

    open spec fn pow_spec(self, rhs: u16) -> u8 {
        pow_spec_u8(self, rhs as nat)
    }

    fn pow(self, rhs: u16) -> (r: u8) {
        pow_u8(self, rhs as usize)
    }
}

impl<'a> Pow<&'a u16> for u8 {
    type Output = u8;

    open spec fn pow_spec(self, rhs: &'a u16) -> u8 {
        pow_spec_u8(self, *rhs as nat)
    }

    fn pow(self, rhs: &'a u16) -> (r: u8) {
        pow_u8(self, *rhs as usize)
    }
}

impl<'a> Pow<u16> for &'a u8 {
    type Output = u8;

    open spec fn pow_spec(self, rhs: u16) -> u8 {
        pow_spec_u8(*self, rhs as nat)
    }

    fn pow(self, rhs: u16) -> (r: u8) {
        pow_u8(*self, rhs as usize)
    }
}

impl<'a, 'b> Pow<&'a u16> for &'b u8 {
    type Output = u8;

    open spec fn pow_spec(self, rhs: &'a u16) -> u8 {
        pow_spec_u8(*self, *rhs as nat)
    }

    fn pow(self, rhs: &'a u16) -> (r: u8) {
        pow_u8(*self, *rhs as usize)
    }
}

impl Pow<u32> for u8 {
    type Output = u8;

    open spec fn pow_spec(self, rhs: u32) -> u8 {
        pow_spec_u8(self, rhs as nat)
    }

    fn pow(self, rhs: u32) -> (r: u8) {
        pow_u8(self, rhs as usize)
    }
}

impl<'a> Pow<&'a u32> for u8 {
    type Output = u8;

    open spec fn pow_spec(self, rhs: &'a u32) -> u8 {
        pow_spec_u8(self, *rhs as nat)
    }

    fn pow(self, rhs: &'a u32) -> (r: u8) {
        pow_u8(self, *rhs as usize)
    }
}

impl<'a> Pow<u32> for &'a u8 {
    type Output = u8;

    open spec fn pow_spec(self, rhs: u32) -> u8 {
        pow_spec_u8(*self, rhs as nat)
    }

    fn pow(self, rhs: u32) -> (r: u8) {
        pow_u8(*self, rhs as usize)
    }
}

impl<'a, 'b> Pow<&'a u32> for &'b u8 {
    type Output = u8;

    open spec fn pow_spec(self, rhs: &'a u32) -> u8 {
        pow_spec_u8(*self, *rhs as nat)
    }

    fn pow(self, rhs: &'a u32) -> (r: u8) {
        pow_u8(*self, *rhs as usize)
    }
}

impl Pow<usize> for u8 {
    type Output = u8;

    open spec fn pow_spec(self, rhs: usize) -> u8 {
        pow_spec_u8(self, rhs as nat)
    }

    fn pow(self, rhs: usize) -> (r: u8) {
        pow_u8(self, rhs)
    }
}

impl<'a> Pow<&'a usize> for u8 {
    type Output = u8;

    open spec fn pow_spec(self, rhs: &'a usize) -> u8 {
        pow_spec_u8(self, *rhs as nat)
    }

    fn pow(self, rhs: &'a usize) -> (r: u8) {
        pow_u8(self, *rhs)
    }
}

impl<'a> Pow<usize> for &'a u8 {
    type Output = u8;

    open spec fn pow_spec(self, rhs: usize) -> u8 {
        pow_spec_u8(*self, rhs as nat)
    }

    fn pow(self, rhs: usize) -> (r: u8) {
        pow_u8(*self, rhs)
    }
}

impl<'a, 'b> Pow<&'a usize> for &'b u8 {
    type Output = u8;

    open spec fn pow_spec(self, rhs: &'a usize) -> u8 {
        pow_spec_u8(*self, *rhs as nat)
    }

    fn pow(self, rhs: &'a usize) -> (r: u8) {
        pow_u8(*self, *rhs)
    }
}

impl Monoid for u16 {
    open spec fn value(&self) -> int {
        *self as int
    }

    open spec fn in_range(v: int) -> bool {
        0 <= v <= u16::MAX as int
    }

    open spec fn mul_value(a: int, b: int) -> int {
        (a * b) % (0x1_0000)
    }

    proof fn lemma_value_in_range(&self) {
    }

    proof fn lemma_one_in_range() {
    }

    proof fn lemma_mul_in_range(a: int, b: int) {
        lemma_mod_mul_bound(a, b, 0x1_0000);
    }

    proof fn lemma_mul_assoc(a: int, b: int, c: int) {
        lemma_mod_mul_assoc(a, b, c, 0x1_0000);
    }

    proof fn lemma_mul_exact(a: int, b: int) {
        lemma_mod_small_value(a * b, 0x1_0000);
    }

    proof fn lemma_one_identity(a: int) {
        lemma_mod_mul_identity(a, 0x1_0000);
    }

    fn one() -> (r: Self) {
        1u16
    }

    fn duplicate(&self) -> (r: Self) {
        *self
    }

    fn multiply(self, rhs: Self) -> (r: Self) {
        self.wrapping_mul(rhs)
    }
}

impl CheckedMul for u16 {
    fn checked_mul(&self, rhs: &Self) -> (r: Option<Self>) {
        proof {
            vstd::arithmetic::mul::lemma_mul_nonnegative(*self as int, *rhs as int);
        }
        u16::checked_mul(*self, *rhs)
    }
}

/// What raising a `u16` to a power returns: the iterative wrap-around
/// product, brought back into the type.
pub open spec fn pow_spec_u16(b: u16, e: nat) -> u16 {
    pow_value::<u16>(b as int, e) as u16
}

fn pow_u16(b: u16, e: usize) -> (r: u16)
    ensures
        r == pow_spec_u16(b, e as nat),
{
    let r = pow(b, e);
    proof {
        lemma_pow_value_in_range::<u16>(b as int, e as nat);
    }
    r
}

impl Pow<u8> for u16 {
    type Output = u16;

    open spec fn pow_spec(self, rhs: u8) -> u16 {
        pow_spec_u16(self, rhs as nat)
    }

    fn pow(self, rhs: u8) -> (r: u16) {
        pow_u16(self, rhs as usize)
    }
}

impl<'a> Pow<&'a u8> for u16 {
    type Output = u16;

    open spec fn pow_spec(self, rhs: &'a u8) -> u16 {
        pow_spec_u16(self, *rhs as nat)
    }

    fn pow(self, rhs: &'a u8) -> (r: u16) {
        pow_u16(self, *rhs as usize)
    }
}

impl<'a> Pow<u8> for &'a u16 {
    type Output = u16;

    open spec fn pow_spec(self, rhs: u8) -> u16 {
        pow_spec_u16(*self, rhs as nat)
    }

    fn pow(self, rhs: u8) -> (r: u16) {
        pow_u16(*self, rhs as usize)
    }
}

impl<'a, 'b> Pow<&'a u8> for &'b u16 {
    type Output = u16;

    open spec fn pow_spec(self, rhs: &'a u8) -> u16 {
        pow_spec_u16(*self, *rhs as nat)
    }

    fn pow(self, rhs: &'a u8) -> (r: u16) {
        pow_u16(*self, *rhs as usize)
    }
}

impl Pow<u16> for u16 {
    type Output = u16;

    open spec fn pow_spec(self, rhs: u16) -> u16 {
        pow_spec_u16(self, rhs as nat)
    }

    fn pow(self, rhs: u16) -> (r: u16) {
        pow_u16(self, rhs as usize)
    }
}

impl<'a> Pow<&'a u16> for u16 {
    type Output = u16;

    open spec fn pow_spec(self, rhs: &'a u16) -> u16 {
        pow_spec_u16(self, *rhs as nat)
    }

    fn pow(self, rhs: &'a u16) -> (r: u16) {
        pow_u16(self, *rhs as usize)
    }
}

impl<'a> Pow<u16> for &'a u16 {
    type Output = u16;

    open spec fn pow_spec(self, rhs: u16) -> u16 {
        pow_spec_u16(*self, rhs as nat)
    }

    fn pow(self, rhs: u16) -> (r: u16) {
        pow_u16(*self, rhs as usize)
    }
}

impl<'a, 'b> Pow<&'a u16> for &'b u16 {
    type Output = u16;

    open spec fn pow_spec(self, rhs: &'a u16) -> u16 {
        pow_spec_u16(*self, *rhs as nat)
    }

    fn pow(self, rhs: &'a u16) -> (r: u16) {
        pow_u16(*self, *rhs as usize)
    }
}

impl Pow<u32> for u16 {
    type Output = u16;

    open spec fn pow_spec(self, rhs: u32) -> u16 {
        pow_spec_u16(self, rhs as nat)
    }

    fn pow(self, rhs: u32) -> (r: u16) {
        pow_u16(self, rhs as usize)
    }
}

impl<'a> Pow<&'a u32> for u16 {
    type Output = u16;

    open spec fn pow_spec(self, rhs: &'a u32) -> u16 {
        pow_spec_u16(self, *rhs as nat)
    }

    fn pow(self, rhs: &'a u32) -> (r: u16) {
        pow_u16(self, *rhs as usize)
    }
}

impl<'a> Pow<u32> for &'a u16 {
    type Output = u16;

    open spec fn pow_spec(self, rhs: u32) -> u16 {
        pow_spec_u16(*self, rhs as nat)
    }

    fn pow(self, rhs: u32) -> (r: u16) {
        pow_u16(*self, rhs as usize)
    }
}

impl<'a, 'b> Pow<&'a u32> for &'b u16 {
    type Output = u16;

    open spec fn pow_spec(self, rhs: &'a u32) -> u16 {
        pow_spec_u16(*self, *rhs as nat)
    }

    fn pow(self, rhs: &'a u32) -> (r: u16) {
        pow_u16(*self, *rhs as usize)
    }
}

impl Pow<usize> for u16 {
    type Output = u16;

    open spec fn pow_spec(self, rhs: usize) -> u16 {
        pow_spec_u16(self, rhs as nat)
    }

    fn pow(self, rhs: usize) -> (r: u16) {
        pow_u16(self, rhs)
    }
}

impl<'a> Pow<&'a usize> for u16 {
    type Output = u16;

    open spec fn pow_spec(self, rhs: &'a usize) -> u16 {
        pow_spec_u16(self, *rhs as nat)
    }

    fn pow(self, rhs: &'a usize) -> (r: u16) {
        pow_u16(self, *rhs)
    }
}

impl<'a> Pow<usize> for &'a u16 {
    type Output = u16;

    open spec fn pow_spec(self, rhs: usize) -> u16 {
        pow_spec_u16(*self, rhs as nat)
    }

    fn pow(self, rhs: usize) -> (r: u16) {
        pow_u16(*self, rhs)
    }
}

impl<'a, 'b> Pow<&'a usize> for &'b u16 {
    type Output = u16;

    open spec fn pow_spec(self, rhs: &'a usize) -> u16 {
        pow_spec_u16(*self, *rhs as nat)
    }

    fn pow(self, rhs: &'a usize) -> (r: u16) {
        pow_u16(*self, *rhs)
    }
}

impl Monoid for u32 {
    open spec fn value(&self) -> int {
        *self as int
    }

    open spec fn in_range(v: int) -> bool {
        0 <= v <= u32::MAX as int
    }

    open spec fn mul_value(a: int, b: int) -> int {
        (a * b) % (0x1_0000_0000)
    }

    proof fn lemma_value_in_range(&self) {
    }

    proof fn lemma_one_in_range() {
    }

    proof fn lemma_mul_in_range(a: int, b: int) {
        lemma_mod_mul_bound(a, b, 0x1_0000_0000);
    }

    proof fn lemma_mul_assoc(a: int, b: int, c: int) {
        lemma_mod_mul_assoc(a, b, c, 0x1_0000_0000);
    }

    proof fn lemma_mul_exact(a: int, b: int) {
        lemma_mod_small_value(a * b, 0x1_0000_0000);
    }

    proof fn lemma_one_identity(a: int) {
        lemma_mod_mul_identity(a, 0x1_0000_0000);
    }

    fn one() -> (r: Self) {
        1u32
    }

    fn duplicate(&self) -> (r: Self) {
        *self
    }

    fn multiply(self, rhs: Self) -> (r: Self) {
        self.wrapping_mul(rhs)
    }
}

impl CheckedMul for u32 {
    fn checked_mul(&self, rhs: &Self) -> (r: Option<Self>) {
        proof {
            vstd::arithmetic::mul::lemma_mul_nonnegative(*self as int, *rhs as int);
        }
        u32::checked_mul(*self, *rhs)
    }
}

/// What raising a `u32` to a power returns: the iterative wrap-around
/// product, brought back into the type.
pub open spec fn pow_spec_u32(b: u32, e: nat) -> u32 {
    pow_value::<u32>(b as int, e) as u32
}

fn pow_u32(b: u32, e: usize) -> (r: u32)
    ensures
        r == pow_spec_u32(b, e as nat),
{
    let r = pow(b, e);
    proof {
        lemma_pow_value_in_range::<u32>(b as int, e as nat);
    }
    r
}

impl Pow<u8> for u32 {
    type Output = u32;

    open spec fn pow_spec(self, rhs: u8) -> u32 {
        pow_spec_u32(self, rhs as nat)
    }

    fn pow(self, rhs: u8) -> (r: u32) {
        pow_u32(self, rhs as usize)
    }
}

impl<'a> Pow<&'a u8> for u32 {
    type Output = u32;

    open spec fn pow_spec(self, rhs: &'a u8) -> u32 {
        pow_spec_u32(self, *rhs as nat)
    }

    fn pow(self, rhs: &'a u8) -> (r: u32) {
        pow_u32(self, *rhs as usize)
    }
}

impl<'a> Pow<u8> for &'a u32 {
    type Output = u32;

    open spec fn pow_spec(self, rhs: u8) -> u32 {
        pow_spec_u32(*self, rhs as nat)
    }

    fn pow(self, rhs: u8) -> (r: u32) {
        pow_u32(*self, rhs as usize)
    }
}

impl<'a, 'b> Pow<&'a u8> for &'b u32 {
    type Output = u32;

    open spec fn pow_spec(self, rhs: &'a u8) -> u32 {
        pow_spec_u32(*self, *rhs as nat)
    }

    fn pow(self, rhs: &'a u8) -> (r: u32) {
        pow_u32(*self, *rhs as usize)
    }
}

impl Pow<u16> for u32 {
    type Output = u32;

    open spec fn pow_spec(self, rhs: u16) -> u32 {
        pow_spec_u32(self, rhs as nat)
    }

    fn pow(self, rhs: u16) -> (r: u32) {
        pow_u32(self, rhs as usize)
    }
}

impl<'a> Pow<&'a u16> for u32 {
    type Output = u32;

    open spec fn pow_spec(self, rhs: &'a u16) -> u32 {
        pow_spec_u32(self, *rhs as nat)
    }

    fn pow(self, rhs: &'a u16) -> (r: u32) {
        pow_u32(self, *rhs as usize)
    }
}

impl<'a> Pow<u16> for &'a u32 {
    type Output = u32;

    open spec fn pow_spec(self, rhs: u16) -> u32 {
        pow_spec_u32(*self, rhs as nat)
    }

    fn pow(self, rhs: u16) -> (r: u32) {
        pow_u32(*self, rhs as usize)
    }
}

impl<'a, 'b> Pow<&'a u16> for &'b u32 {
    type Output = u32;

    open spec fn pow_spec(self, rhs: &'a u16) -> u32 {
        pow_spec_u32(*self, *rhs as nat)
    }

    fn pow(self, rhs: &'a u16) -> (r: u32) {
        pow_u32(*self, *rhs as usize)
    }
}

impl Pow<u32> for u32 {
    type Output = u32;

    open spec fn pow_spec(self, rhs: u32) -> u32 {
        pow_spec_u32(self, rhs as nat)
    }

    fn pow(self, rhs: u32) -> (r: u32) {
        pow_u32(self, rhs as usize)
    }
}

impl<'a> Pow<&'a u32> for u32 {
    type Output = u32;

    open spec fn pow_spec(self, rhs: &'a u32) -> u32 {
        pow_spec_u32(self, *rhs as nat)
    }

    fn pow(self, rhs: &'a u32) -> (r: u32) {
        pow_u32(self, *rhs as usize)
    }
}

impl<'a> Pow<u32> for &'a u32 {
    type Output = u32;

    open spec fn pow_spec(self, rhs: u32) -> u32 {
        pow_spec_u32(*self, rhs as nat)
    }

    fn pow(self, rhs: u32) -> (r: u32) {
        pow_u32(*self, rhs as usize)
    }
}

impl<'a, 'b> Pow<&'a u32> for &'b u32 {
    type Output = u32;

    open spec fn pow_spec(self, rhs: &'a u32) -> u32 {
        pow_spec_u32(*self, *rhs as nat)
    }

    fn pow(self, rhs: &'a u32) -> (r: u32) {
        pow_u32(*self, *rhs as usize)
    }
}

impl Pow<usize> for u32 {
    type Output = u32;

    open spec fn pow_spec(self, rhs: usize) -> u32 {
        pow_spec_u32(self, rhs as nat)
    }

    fn pow(self, rhs: usize) -> (r: u32) {
        pow_u32(self, rhs)
    }
}

impl<'a> Pow<&'a usize> for u32 {
    type Output = u32;

    open spec fn pow_spec(self, rhs: &'a usize) -> u32 {
        pow_spec_u32(self, *rhs as nat)
    }

    fn pow(self, rhs: &'a usize) -> (r: u32) {
        pow_u32(self, *rhs)
    }
}

impl<'a> Pow<usize> for &'a u32 {
    type Output = u32;

    open spec fn pow_spec(self, rhs: usize) -> u32 {
        pow_spec_u32(*self, rhs as nat)
    }

    fn pow(self, rhs: usize) -> (r: u32) {
        pow_u32(*self, rhs)
    }
}

impl<'a, 'b> Pow<&'a usize> for &'b u32 {
    type Output = u32;

    open spec fn pow_spec(self, rhs: &'a usize) -> u32 {
        pow_spec_u32(*self, *rhs as nat)
    }

    fn pow(self, rhs: &'a usize) -> (r: u32) {
        pow_u32(*self, *rhs)
    }
}

impl Monoid for u64 {
    open spec fn value(&self) -> int {
        *self as int
    }

    open spec fn in_range(v: int) -> bool {
        0 <= v <= u64::MAX as int
    }

    open spec fn mul_value(a: int, b: int) -> int {
        (a * b) % (0x1_0000_0000_0000_0000)
    }

    proof fn lemma_value_in_range(&self) {
    }

    proof fn lemma_one_in_range() {
    }

    proof fn lemma_mul_in_range(a: int, b: int) {
        lemma_mod_mul_bound(a, b, 0x1_0000_0000_0000_0000);
    }

    proof fn lemma_mul_assoc(a: int, b: int, c: int) {
        lemma_mod_mul_assoc(a, b, c, 0x1_0000_0000_0000_0000);
    }

    proof fn lemma_mul_exact(a: int, b: int) {
        lemma_mod_small_value(a * b, 0x1_0000_0000_0000_0000);
    }

    proof fn lemma_one_identity(a: int) {
        lemma_mod_mul_identity(a, 0x1_0000_0000_0000_0000);
    }

    fn one() -> (r: Self) {
        1u64
    }

    fn duplicate(&self) -> (r: Self) {
        *self
    }

    fn multiply(self, rhs: Self) -> (r: Self) {
        self.wrapping_mul(rhs)
    }
}

impl CheckedMul for u64 {
    fn checked_mul(&self, rhs: &Self) -> (r: Option<Self>) {
        proof {
            vstd::arithmetic::mul::lemma_mul_nonnegative(*self as int, *rhs as int);
        }
        u64::checked_mul(*self, *rhs)
    }
}

/// What raising a `u64` to a power returns: the iterative wrap-around
/// product, brought back into the type.
pub open spec fn pow_spec_u64(b: u64, e: nat) -> u64 {
    pow_value::<u64>(b as int, e) as u64
}

fn pow_u64(b: u64, e: usize) -> (r: u64)
    ensures
        r == pow_spec_u64(b, e as nat),
{
    let r = pow(b, e);
    proof {
        lemma_pow_value_in_range::<u64>(b as int, e as nat);
    }
    r
}

impl Pow<u8> for u64 {
    type Output = u64;

    open spec fn pow_spec(self, rhs: u8) -> u64 {
        pow_spec_u64(self, rhs as nat)
    }

    fn pow(self, rhs: u8) -> (r: u64) {
        pow_u64(self, rhs as usize)
    }
}

impl<'a> Pow<&'a u8> for u64 {
    type Output = u64;

    open spec fn pow_spec(self, rhs: &'a u8) -> u64 {
        pow_spec_u64(self, *rhs as nat)
    }

    fn pow(self, rhs: &'a u8) -> (r: u64) {
        pow_u64(self, *rhs as usize)
    }
}

impl<'a> Pow<u8> for &'a u64 {
    type Output = u64;

    open spec fn pow_spec(self, rhs: u8) -> u64 {
        pow_spec_u64(*self, rhs as nat)
    }

    fn pow(self, rhs: u8) -> (r: u64) {
        pow_u64(*self, rhs as usize)
    }
}

impl<'a, 'b> Pow<&'a u8> for &'b u64 {
    type Output = u64;

    open spec fn pow_spec(self, rhs: &'a u8) -> u64 {
        pow_spec_u64(*self, *rhs as nat)
    }

    fn pow(self, rhs: &'a u8) -> (r: u64) {
        pow_u64(*self, *rhs as usize)
    }
}

impl Pow<u16> for u64 {
    type Output = u64;

    open spec fn pow_spec(self, rhs: u16) -> u64 {
        pow_spec_u64(self, rhs as nat)
    }

    fn pow(self, rhs: u16) -> (r: u64) {
        pow_u64(self, rhs as usize)
    }
}

impl<'a> Pow<&'a u16> for u64 {
    type Output = u64;

    open spec fn pow_spec(self, rhs: &'a u16) -> u64 {
        pow_spec_u64(self, *rhs as nat)
    }

    fn pow(self, rhs: &'a u16) -> (r: u64) {
        pow_u64(self, *rhs as usize)
    }
}

impl<'a> Pow<u16> for &'a u64 {
    type Output = u64;

    open spec fn pow_spec(self, rhs: u16) -> u64 {
        pow_spec_u64(*self, rhs as nat)
    }

    fn pow(self, rhs: u16) -> (r: u64) {
        pow_u64(*self, rhs as usize)
    }
}

impl<'a, 'b> Pow<&'a u16> for &'b u64 {
    type Output = u64;

    open spec fn pow_spec(self, rhs: &'a u16) -> u64 {
        pow_spec_u64(*self, *rhs as nat)
    }

    fn pow(self, rhs: &'a u16) -> (r: u64) {
        pow_u64(*self, *rhs as usize)
    }
}

impl Pow<u32> for u64 {
    type Output = u64;

    open spec fn pow_spec(self, rhs: u32) -> u64 {
        pow_spec_u64(self, rhs as nat)
    }

    fn pow(self, rhs: u32) -> (r: u64) {
        pow_u64(self, rhs as usize)
    }
}

impl<'a> Pow<&'a u32> for u64 {
    type Output = u64;

    open spec fn pow_spec(self, rhs: &'a u32) -> u64 {
        pow_spec_u64(self, *rhs as nat)
    }

    fn pow(self, rhs: &'a u32) -> (r: u64) {
        pow_u64(self, *rhs as usize)
    }
}

impl<'a> Pow<u32> for &'a u64 {
    type Output = u64;

    open spec fn pow_spec(self, rhs: u32) -> u64 {
        pow_spec_u64(*self, rhs as nat)
    }

    fn pow(self, rhs: u32) -> (r: u64) {
        pow_u64(*self, rhs as usize)
    }
}

impl<'a, 'b> Pow<&'a u32> for &'b u64 {
    type Output = u64;

    open spec fn pow_spec(self, rhs: &'a u32) -> u64 {
        pow_spec_u64(*self, *rhs as nat)
    }

    fn pow(self, rhs: &'a u32) -> (r: u64) {
        pow_u64(*self, *rhs as usize)
    }
}

impl Pow<usize> for u64 {
    type Output = u64;

    open spec fn pow_spec(self, rhs: usize) -> u64 {
        pow_spec_u64(self, rhs as nat)
    }

    fn pow(self, rhs: usize) -> (r: u64) {
        pow_u64(self, rhs)
    }
}

impl<'a> Pow<&'a usize> for u64 {
    type Output = u64;

    open spec fn pow_spec(self, rhs: &'a usize) -> u64 {
        pow_spec_u64(self, *rhs as nat)
    }

    fn pow(self, rhs: &'a usize) -> (r: u64) {
        pow_u64(self, *rhs)
    }
}

impl<'a> Pow<usize> for &'a u64 {
    type Output = u64;

    open spec fn pow_spec(self, rhs: usize) -> u64 {
        pow_spec_u64(*self, rhs as nat)
    }

    fn pow(self, rhs: usize) -> (r: u64) {
        pow_u64(*self, rhs)
    }
}

impl<'a, 'b> Pow<&'a usize> for &'b u64 {
    type Output = u64;

    open spec fn pow_spec(self, rhs: &'a usize) -> u64 {
        pow_spec_u64(*self, *rhs as nat)
    }

    fn pow(self, rhs: &'a usize) -> (r: u64) {
        pow_u64(*self, *rhs)
    }
}

impl Monoid for usize {
    open spec fn value(&self) -> int {
        *self as int
    }

    open spec fn in_range(v: int) -> bool {
        0 <= v <= usize::MAX as int
    }

    open spec fn mul_value(a: int, b: int) -> int {
        (a * b) % (usize::MAX as int + 1)
    }

    proof fn lemma_value_in_range(&self) {
    }

    proof fn lemma_one_in_range() {
    }

    proof fn lemma_mul_in_range(a: int, b: int) {
        lemma_mod_mul_bound(a, b, usize::MAX as int + 1);
    }

    proof fn lemma_mul_assoc(a: int, b: int, c: int) {
        lemma_mod_mul_assoc(a, b, c, usize::MAX as int + 1);
    }

    proof fn lemma_mul_exact(a: int, b: int) {
        lemma_mod_small_value(a * b, usize::MAX as int + 1);
    }

    proof fn lemma_one_identity(a: int) {
        lemma_mod_mul_identity(a, usize::MAX as int + 1);
    }

    fn one() -> (r: Self) {
        1usize
    }

    fn duplicate(&self) -> (r: Self) {
        *self
    }

    fn multiply(self, rhs: Self) -> (r: Self) {
        self.wrapping_mul(rhs)
    }
}

impl CheckedMul for usize {
    fn checked_mul(&self, rhs: &Self) -> (r: Option<Self>) {
        proof {
            vstd::arithmetic::mul::lemma_mul_nonnegative(*self as int, *rhs as int);
        }
        usize::checked_mul(*self, *rhs)
    }
}

/// What raising a `usize` to a power returns: the iterative wrap-around
/// product, brought back into the type.
pub open spec fn pow_spec_usize(b: usize, e: nat) -> usize {
    pow_value::<usize>(b as int, e) as usize
}

fn pow_usize(b: usize, e: usize) -> (r: usize)
    ensures
        r == pow_spec_usize(b, e as nat),
{
    let r = pow(b, e);
    proof {
        lemma_pow_value_in_range::<usize>(b as int, e as nat);
    }
    r
}

impl Pow<u8> for usize {
    type Output = usize;

    open spec fn pow_spec(self, rhs: u8) -> usize {
        pow_spec_usize(self, rhs as nat)
    }

    fn pow(self, rhs: u8) -> (r: usize) {
        pow_usize(self, rhs as usize)
    }
}

impl<'a> Pow<&'a u8> for usize {
    type Output = usize;

    open spec fn pow_spec(self, rhs: &'a u8) -> usize {
        pow_spec_usize(self, *rhs as nat)
    }

    fn pow(self, rhs: &'a u8) -> (r: usize) {
        pow_usize(self, *rhs as usize)
    }
}

impl<'a> Pow<u8> for &'a usize {
    type Output = usize;

    open spec fn pow_spec(self, rhs: u8) -> usize {
        pow_spec_usize(*self, rhs as nat)
    }

    fn pow(self, rhs: u8) -> (r: usize) {
        pow_usize(*self, rhs as usize)
    }
}

impl<'a, 'b> Pow<&'a u8> for &'b usize {
    type Output = usize;

    open spec fn pow_spec(self, rhs: &'a u8) -> usize {
        pow_spec_usize(*self, *rhs as nat)
    }

    fn pow(self, rhs: &'a u8) -> (r: usize) {
        pow_usize(*self, *rhs as usize)
    }
}

impl Pow<u16> for usize {
    type Output = usize;

    open spec fn pow_spec(self, rhs: u16) -> usize {
        pow_spec_usize(self, rhs as nat)
    }

    fn pow(self, rhs: u16) -> (r: usize) {
        pow_usize(self, rhs as usize)
    }
}

impl<'a> Pow<&'a u16> for usize {
    type Output = usize;

    open spec fn pow_spec(self, rhs: &'a u16) -> usize {
        pow_spec_usize(self, *rhs as nat)
    }

    fn pow(self, rhs: &'a u16) -> (r: usize) {
        pow_usize(self, *rhs as usize)
    }
}

impl<'a> Pow<u16> for &'a usize {
    type Output = usize;

    open spec fn pow_spec(self, rhs: u16) -> usize {
        pow_spec_usize(*self, rhs as nat)
    }

    fn pow(self, rhs: u16) -> (r: usize) {
        pow_usize(*self, rhs as usize)
    }
}

impl<'a, 'b> Pow<&'a u16> for &'b usize {
    type Output = usize;

    open spec fn pow_spec(self, rhs: &'a u16) -> usize {
        pow_spec_usize(*self, *rhs as nat)
    }

    fn pow(self, rhs: &'a u16) -> (r: usize) {
        pow_usize(*self, *rhs as usize)
    }
}

impl Pow<u32> for usize {
    type Output = usize;

    open spec fn pow_spec(self, rhs: u32) -> usize {
        pow_spec_usize(self, rhs as nat)
    }

    fn pow(self, rhs: u32) -> (r: usize) {
        pow_usize(self, rhs as usize)
    }
}

impl<'a> Pow<&'a u32> for usize {
    type Output = usize;

    open spec fn pow_spec(self, rhs: &'a u32) -> usize {
        pow_spec_usize(self, *rhs as nat)
    }

    fn pow(self, rhs: &'a u32) -> (r: usize) {
        pow_usize(self, *rhs as usize)
    }
}

impl<'a> Pow<u32> for &'a usize {
    type Output = usize;

    open spec fn pow_spec(self, rhs: u32) -> usize {
        pow_spec_usize(*self, rhs as nat)
    }

    fn pow(self, rhs: u32) -> (r: usize) {
        pow_usize(*self, rhs as usize)
    }
}

impl<'a, 'b> Pow<&'a u32> for &'b usize {
    type Output = usize;

    open spec fn pow_spec(self, rhs: &'a u32) -> usize {
        pow_spec_usize(*self, *rhs as nat)
    }

    fn pow(self, rhs: &'a u32) -> (r: usize) {
        pow_usize(*self, *rhs as usize)
    }
}

impl Pow<usize> for usize {
    type Output = usize;

    open spec fn pow_spec(self, rhs: usize) -> usize {
        pow_spec_usize(self, rhs as nat)
    }

    fn pow(self, rhs: usize) -> (r: usize) {
        pow_usize(self, rhs)
    }
}

impl<'a> Pow<&'a usize> for usize {
    type Output = usize;

    open spec fn pow_spec(self, rhs: &'a usize) -> usize {
        pow_spec_usize(self, *rhs as nat)
    }

    fn pow(self, rhs: &'a usize) -> (r: usize) {
        pow_usize(self, *rhs)
    }
}

impl<'a> Pow<usize> for &'a usize {
    type Output = usize;

    open spec fn pow_spec(self, rhs: usize) -> usize {
        pow_spec_usize(*self, rhs as nat)
    }

    fn pow(self, rhs: usize) -> (r: usize) {
        pow_usize(*self, rhs)
    }
}

impl<'a, 'b> Pow<&'a usize> for &'b usize {
    type Output = usize;

    open spec fn pow_spec(self, rhs: &'a usize) -> usize {
        pow_spec_usize(*self, *rhs as nat)
    }

    fn pow(self, rhs: &'a usize) -> (r: usize) {
        pow_usize(*self, *rhs)
    }
}

impl Monoid for i8 {
    open spec fn value(&self) -> int {
        *self as int
    }

    open spec fn in_range(v: int) -> bool {
        i8::MIN as int <= v <= i8::MAX as int
    }

    open spec fn mul_value(a: int, b: int) -> int {
        wrap_signed(a * b, 0x100, i8::MAX as int)
    }

    proof fn lemma_value_in_range(&self) {
    }

    proof fn lemma_one_in_range() {
    }

    proof fn lemma_mul_in_range(a: int, b: int) {
        lemma_wrap_signed_bound(a * b, 0x100, i8::MAX as int);
    }

    proof fn lemma_mul_assoc(a: int, b: int, c: int) {
        lemma_wrap_signed_mul_assoc(a, b, c, 0x100, i8::MAX as int);
    }

    proof fn lemma_mul_exact(a: int, b: int) {
        lemma_wrap_signed_small(a * b, 0x100, i8::MAX as int);
    }

    proof fn lemma_one_identity(a: int) {
        lemma_wrap_signed_mul_identity(a, 0x100, i8::MAX as int);
    }

    fn one() -> (r: Self) {
        1i8
    }

    fn duplicate(&self) -> (r: Self) {
        *self
    }

    fn multiply(self, rhs: Self) -> (r: Self) {
        self.wrapping_mul(rhs)
    }
}

impl CheckedMul for i8 {
    fn checked_mul(&self, rhs: &Self) -> (r: Option<Self>) {
        i8::checked_mul(*self, *rhs)
    }
}

/// What raising an `i8` to a power returns: the iterative wrap-around
/// product, brought back into the type.
pub open spec fn pow_spec_i8(b: i8, e: nat) -> i8 {
    pow_value::<i8>(b as int, e) as i8
}

fn pow_i8(b: i8, e: usize) -> (r: i8)
    ensures
        r == pow_spec_i8(b, e as nat),
{
    let r = pow(b, e);
    proof {
        lemma_pow_value_in_range::<i8>(b as int, e as nat);
    }
    r
}

impl Pow<u8> for i8 {
    type Output = i8;

    open spec fn pow_spec(self, rhs: u8) -> i8 {
        pow_spec_i8(self, rhs as nat)
    }

    fn pow(self, rhs: u8) -> (r: i8) {
        pow_i8(self, rhs as usize)
    }
}

impl<'a> Pow<&'a u8> for i8 {
    type Output = i8;

    open spec fn pow_spec(self, rhs: &'a u8) -> i8 {
        pow_spec_i8(self, *rhs as nat)
    }

    fn pow(self, rhs: &'a u8) -> (r: i8) {
        pow_i8(self, *rhs as usize)
    }
}

impl<'a> Pow<u8> for &'a i8 {
    type Output = i8;

    open spec fn pow_spec(self, rhs: u8) -> i8 {
        pow_spec_i8(*self, rhs as nat)
    }

    fn pow(self, rhs: u8) -> (r: i8) {
        pow_i8(*self, rhs as usize)
    }
}

impl<'a, 'b> Pow<&'a u8> for &'b i8 {
    type Output = i8;

    open spec fn pow_spec(self, rhs: &'a u8) -> i8 {
        pow_spec_i8(*self, *rhs as nat)
    }

    fn pow(self, rhs: &'a u8) -> (r: i8) {
        pow_i8(*self, *rhs as usize)
    }
}

impl Pow<u16> for i8 {
    type Output = i8;

    open spec fn pow_spec(self, rhs: u16) -> i8 {
        pow_spec_i8(self, rhs as nat)
    }

    fn pow(self, rhs: u16) -> (r: i8) {
        pow_i8(self, rhs as usize)
    }
}

impl<'a> Pow<&'a u16> for i8 {
    type Output = i8;

    open spec fn pow_spec(self, rhs: &'a u16) -> i8 {
        pow_spec_i8(self, *rhs as nat)
    }

    fn pow(self, rhs: &'a u16) -> (r: i8) {
        pow_i8(self, *rhs as usize)
    }
}

impl<'a> Pow<u16> for &'a i8 {
    type Output = i8;

    open spec fn pow_spec(self, rhs: u16) -> i8 {
        pow_spec_i8(*self, rhs as nat)
    }

    fn pow(self, rhs: u16) -> (r: i8) {
        pow_i8(*self, rhs as usize)
    }
}

impl<'a, 'b> Pow<&'a u16> for &'b i8 {
    type Output = i8;

    open spec fn pow_spec(self, rhs: &'a u16) -> i8 {
        pow_spec_i8(*self, *rhs as nat)
    }

    fn pow(self, rhs: &'a u16) -> (r: i8) {
        pow_i8(*self, *rhs as usize)
    }
}

impl Pow<u32> for i8 {
    type Output = i8;

    open spec fn pow_spec(self, rhs: u32) -> i8 {
        pow_spec_i8(self, rhs as nat)
    }

    fn pow(self, rhs: u32) -> (r: i8) {
        pow_i8(self, rhs as usize)
    }
}

impl<'a> Pow<&'a u32> for i8 {
    type Output = i8;

    open spec fn pow_spec(self, rhs: &'a u32) -> i8 {
        pow_spec_i8(self, *rhs as nat)
    }

    fn pow(self, rhs: &'a u32) -> (r: i8) {
        pow_i8(self, *rhs as usize)
    }
}

impl<'a> Pow<u32> for &'a i8 {
    type Output = i8;

    open spec fn pow_spec(self, rhs: u32) -> i8 {
        pow_spec_i8(*self, rhs as nat)
    }

    fn pow(self, rhs: u32) -> (r: i8) {
        pow_i8(*self, rhs as usize)
    }
}

impl<'a, 'b> Pow<&'a u32> for &'b i8 {
    type Output = i8;

    open spec fn pow_spec(self, rhs: &'a u32) -> i8 {
        pow_spec_i8(*self, *rhs as nat)
    }

    fn pow(self, rhs: &'a u32) -> (r: i8) {
        pow_i8(*self, *rhs as usize)
    }
}

impl Pow<usize> for i8 {
    type Output = i8;

    open spec fn pow_spec(self, rhs: usize) -> i8 {
        pow_spec_i8(self, rhs as nat)
    }

    fn pow(self, rhs: usize) -> (r: i8) {
        pow_i8(self, rhs)
    }
}

impl<'a> Pow<&'a usize> for i8 {
    type Output = i8;

    open spec fn pow_spec(self, rhs: &'a usize) -> i8 {
        pow_spec_i8(self, *rhs as nat)
    }

    fn pow(self, rhs: &'a usize) -> (r: i8) {
        pow_i8(self, *rhs)
    }
}

impl<'a> Pow<usize> for &'a i8 {
    type Output = i8;

    open spec fn pow_spec(self, rhs: usize) -> i8 {
        pow_spec_i8(*self, rhs as nat)
    }

    fn pow(self, rhs: usize) -> (r: i8) {
        pow_i8(*self, rhs)
    }
}

impl<'a, 'b> Pow<&'a usize> for &'b i8 {
    type Output = i8;

    open spec fn pow_spec(self, rhs: &'a usize) -> i8 {
        pow_spec_i8(*self, *rhs as nat)
    }

    fn pow(self, rhs: &'a usize) -> (r: i8) {
        pow_i8(*self, *rhs)
    }
}

impl Monoid for i16 {
    open spec fn value(&self) -> int {
        *self as int
    }

    open spec fn in_range(v: int) -> bool {
        i16::MIN as int <= v <= i16::MAX as int
    }

    open spec fn mul_value(a: int, b: int) -> int {
        wrap_signed(a * b, 0x1_0000, i16::MAX as int)
    }

    proof fn lemma_value_in_range(&self) {
    }

    proof fn lemma_one_in_range() {
    }

    proof fn lemma_mul_in_range(a: int, b: int) {
        lemma_wrap_signed_bound(a * b, 0x1_0000, i16::MAX as int);
    }

    proof fn lemma_mul_assoc(a: int, b: int, c: int) {
        lemma_wrap_signed_mul_assoc(a, b, c, 0x1_0000, i16::MAX as int);
    }

    proof fn lemma_mul_exact(a: int, b: int) {
        lemma_wrap_signed_small(a * b, 0x1_0000, i16::MAX as int);
    }

    proof fn lemma_one_identity(a: int) {
        lemma_wrap_signed_mul_identity(a, 0x1_0000, i16::MAX as int);
    }

    fn one() -> (r: Self) {
        1i16
    }

    fn duplicate(&self) -> (r: Self) {
        *self
    }

    fn multiply(self, rhs: Self) -> (r: Self) {
        self.wrapping_mul(rhs)
    }
}

impl CheckedMul for i16 {
    fn checked_mul(&self, rhs: &Self) -> (r: Option<Self>) {
        i16::checked_mul(*self, *rhs)
    }
}

/// What raising an `i16` to a power returns: the iterative wrap-around
/// product, brought back into the type.
pub open spec fn pow_spec_i16(b: i16, e: nat) -> i16 {
    pow_value::<i16>(b as int, e) as i16
}

fn pow_i16(b: i16, e: usize) -> (r: i16)
    ensures
        r == pow_spec_i16(b, e as nat),
{
    let r = pow(b, e);
    proof {
        lemma_pow_value_in_range::<i16>(b as int, e as nat);
    }
    r
}

impl Pow<u8> for i16 {
    type Output = i16;

    open spec fn pow_spec(self, rhs: u8) -> i16 {
        pow_spec_i16(self, rhs as nat)
    }

    fn pow(self, rhs: u8) -> (r: i16) {
        pow_i16(self, rhs as usize)
    }
}

impl<'a> Pow<&'a u8> for i16 {
    type Output = i16;

    open spec fn pow_spec(self, rhs: &'a u8) -> i16 {
        pow_spec_i16(self, *rhs as nat)
    }

    fn pow(self, rhs: &'a u8) -> (r: i16) {
        pow_i16(self, *rhs as usize)
    }
}

impl<'a> Pow<u8> for &'a i16 {
    type Output = i16;

    open spec fn pow_spec(self, rhs: u8) -> i16 {
        pow_spec_i16(*self, rhs as nat)
    }

    fn pow(self, rhs: u8) -> (r: i16) {
        pow_i16(*self, rhs as usize)
    }
}

impl<'a, 'b> Pow<&'a u8> for &'b i16 {
    type Output = i16;

    open spec fn pow_spec(self, rhs: &'a u8) -> i16 {
        pow_spec_i16(*self, *rhs as nat)
    }

    fn pow(self, rhs: &'a u8) -> (r: i16) {
        pow_i16(*self, *rhs as usize)
    }
}

impl Pow<u16> for i16 {
    type Output = i16;

    open spec fn pow_spec(self, rhs: u16) -> i16 {
        pow_spec_i16(self, rhs as nat)
    }

    fn pow(self, rhs: u16) -> (r: i16) {
        pow_i16(self, rhs as usize)
    }
}

impl<'a> Pow<&'a u16> for i16 {
    type Output = i16;

    open spec fn pow_spec(self, rhs: &'a u16) -> i16 {
        pow_spec_i16(self, *rhs as nat)
    }

    fn pow(self, rhs: &'a u16) -> (r: i16) {
        pow_i16(self, *rhs as usize)
    }
}

impl<'a> Pow<u16> for &'a i16 {
    type Output = i16;

    open spec fn pow_spec(self, rhs: u16) -> i16 {
        pow_spec_i16(*self, rhs as nat)
    }

    fn pow(self, rhs: u16) -> (r: i16) {
        pow_i16(*self, rhs as usize)
    }
}

impl<'a, 'b> Pow<&'a u16> for &'b i16 {
    type Output = i16;

    open spec fn pow_spec(self, rhs: &'a u16) -> i16 {
        pow_spec_i16(*self, *rhs as nat)
    }

    fn pow(self, rhs: &'a u16) -> (r: i16) {
        pow_i16(*self, *rhs as usize)
    }
}

impl Pow<u32> for i16 {
    type Output = i16;

    open spec fn pow_spec(self, rhs: u32) -> i16 {
        pow_spec_i16(self, rhs as nat)
    }

    fn pow(self, rhs: u32) -> (r: i16) {
        pow_i16(self, rhs as usize)
    }
}

impl<'a> Pow<&'a u32> for i16 {
    type Output = i16;

    open spec fn pow_spec(self, rhs: &'a u32) -> i16 {
        pow_spec_i16(self, *rhs as nat)
    }

    fn pow(self, rhs: &'a u32) -> (r: i16) {
        pow_i16(self, *rhs as usize)
    }
}

impl<'a> Pow<u32> for &'a i16 {
    type Output = i16;

    open spec fn pow_spec(self, rhs: u32) -> i16 {
        pow_spec_i16(*self, rhs as nat)
    }

    fn pow(self, rhs: u32) -> (r: i16) {
        pow_i16(*self, rhs as usize)
    }
}

impl<'a, 'b> Pow<&'a u32> for &'b i16 {
    type Output = i16;

    open spec fn pow_spec(self, rhs: &'a u32) -> i16 {
        pow_spec_i16(*self, *rhs as nat)
    }

    fn pow(self, rhs: &'a u32) -> (r: i16) {
        pow_i16(*self, *rhs as usize)
    }
}

impl Pow<usize> for i16 {
    type Output = i16;

    open spec fn pow_spec(self, rhs: usize) -> i16 {
        pow_spec_i16(self, rhs as nat)
    }

    fn pow(self, rhs: usize) -> (r: i16) {
        pow_i16(self, rhs)
    }
}

impl<'a> Pow<&'a usize> for i16 {
    type Output = i16;

    open spec fn pow_spec(self, rhs: &'a usize) -> i16 {
        pow_spec_i16(self, *rhs as nat)
    }

    fn pow(self, rhs: &'a usize) -> (r: i16) {
        pow_i16(self, *rhs)
    }
}

impl<'a> Pow<usize> for &'a i16 {
    type Output = i16;

    open spec fn pow_spec(self, rhs: usize) -> i16 {
        pow_spec_i16(*self, rhs as nat)
    }

    fn pow(self, rhs: usize) -> (r: i16) {
        pow_i16(*self, rhs)
    }
}

impl<'a, 'b> Pow<&'a usize> for &'b i16 {
    type Output = i16;

    open spec fn pow_spec(self, rhs: &'a usize) -> i16 {
        pow_spec_i16(*self, *rhs as nat)
    }

    fn pow(self, rhs: &'a usize) -> (r: i16) {
        pow_i16(*self, *rhs)
    }
}

impl Monoid for i32 {
    open spec fn value(&self) -> int {
        *self as int
    }

    open spec fn in_range(v: int) -> bool {
        i32::MIN as int <= v <= i32::MAX as int
    }

    open spec fn mul_value(a: int, b: int) -> int {
        wrap_signed(a * b, 0x1_0000_0000, i32::MAX as int)
    }

    proof fn lemma_value_in_range(&self) {
    }

    proof fn lemma_one_in_range() {
    }

    proof fn lemma_mul_in_range(a: int, b: int) {
        lemma_wrap_signed_bound(a * b, 0x1_0000_0000, i32::MAX as int);
    }

    proof fn lemma_mul_assoc(a: int, b: int, c: int) {
        lemma_wrap_signed_mul_assoc(a, b, c, 0x1_0000_0000, i32::MAX as int);
    }

    proof fn lemma_mul_exact(a: int, b: int) {
        lemma_wrap_signed_small(a * b, 0x1_0000_0000, i32::MAX as int);
    }

    proof fn lemma_one_identity(a: int) {
        lemma_wrap_signed_mul_identity(a, 0x1_0000_0000, i32::MAX as int);
    }

    fn one() -> (r: Self) {
        1i32
    }

    fn duplicate(&self) -> (r: Self) {
        *self
    }

    fn multiply(self, rhs: Self) -> (r: Self) {
        self.wrapping_mul(rhs)
    }
}

impl CheckedMul for i32 {
    fn checked_mul(&self, rhs: &Self) -> (r: Option<Self>) {
        i32::checked_mul(*self, *rhs)
    }
}

/// What raising an `i32` to a power returns: the iterative wrap-around
/// product, brought back into the type.
pub open spec fn pow_spec_i32(b: i32, e: nat) -> i32 {
    pow_value::<i32>(b as int, e) as i32
}

fn pow_i32(b: i32, e: usize) -> (r: i32)
    ensures
        r == pow_spec_i32(b, e as nat),
{
    let r = pow(b, e);
    proof {
        lemma_pow_value_in_range::<i32>(b as int, e as nat);
    }
    r
}

impl Pow<u8> for i32 {
    type Output = i32;

    open spec fn pow_spec(self, rhs: u8) -> i32 {
        pow_spec_i32(self, rhs as nat)
    }

    fn pow(self, rhs: u8) -> (r: i32) {
        pow_i32(self, rhs as usize)
    }
}

impl<'a> Pow<&'a u8> for i32 {
    type Output = i32;

    open spec fn pow_spec(self, rhs: &'a u8) -> i32 {
        pow_spec_i32(self, *rhs as nat)
    }

    fn pow(self, rhs: &'a u8) -> (r: i32) {
        pow_i32(self, *rhs as usize)
    }
}

impl<'a> Pow<u8> for &'a i32 {
    type Output = i32;

    open spec fn pow_spec(self, rhs: u8) -> i32 {
        pow_spec_i32(*self, rhs as nat)
    }

    fn pow(self, rhs: u8) -> (r: i32) {
        pow_i32(*self, rhs as usize)
    }
}

impl<'a, 'b> Pow<&'a u8> for &'b i32 {
    type Output = i32;

    open spec fn pow_spec(self, rhs: &'a u8) -> i32 {
        pow_spec_i32(*self, *rhs as nat)
    }

    fn pow(self, rhs: &'a u8) -> (r: i32) {
        pow_i32(*self, *rhs as usize)
    }
}

impl Pow<u16> for i32 {
    type Output = i32;

    open spec fn pow_spec(self, rhs: u16) -> i32 {
        pow_spec_i32(self, rhs as nat)
    }

    fn pow(self, rhs: u16) -> (r: i32) {
        pow_i32(self, rhs as usize)
    }
}

impl<'a> Pow<&'a u16> for i32 {
    type Output = i32;

    open spec fn pow_spec(self, rhs: &'a u16) -> i32 {
        pow_spec_i32(self, *rhs as nat)
    }

    fn pow(self, rhs: &'a u16) -> (r: i32) {
        pow_i32(self, *rhs as usize)
    }
}

impl<'a> Pow<u16> for &'a i32 {
    type Output = i32;

    open spec fn pow_spec(self, rhs: u16) -> i32 {
        pow_spec_i32(*self, rhs as nat)
    }

    fn pow(self, rhs: u16) -> (r: i32) {
        pow_i32(*self, rhs as usize)
    }
}

impl<'a, 'b> Pow<&'a u16> for &'b i32 {
    type Output = i32;

    open spec fn pow_spec(self, rhs: &'a u16) -> i32 {
        pow_spec_i32(*self, *rhs as nat)
    }

    fn pow(self, rhs: &'a u16) -> (r: i32) {
        pow_i32(*self, *rhs as usize)
    }
}

impl Pow<u32> for i32 {
    type Output = i32;

    open spec fn pow_spec(self, rhs: u32) -> i32 {
        pow_spec_i32(self, rhs as nat)
    }

    fn pow(self, rhs: u32) -> (r: i32) {
        pow_i32(self, rhs as usize)
    }
}

impl<'a> Pow<&'a u32> for i32 {
    type Output = i32;

    open spec fn pow_spec(self, rhs: &'a u32) -> i32 {
        pow_spec_i32(self, *rhs as nat)
    }

    fn pow(self, rhs: &'a u32) -> (r: i32) {
        pow_i32(self, *rhs as usize)
    }
}

impl<'a> Pow<u32> for &'a i32 {
    type Output = i32;

    open spec fn pow_spec(self, rhs: u32) -> i32 {
        pow_spec_i32(*self, rhs as nat)
    }

    fn pow(self, rhs: u32) -> (r: i32) {
        pow_i32(*self, rhs as usize)
    }
}

impl<'a, 'b> Pow<&'a u32> for &'b i32 {
    type Output = i32;

    open spec fn pow_spec(self, rhs: &'a u32) -> i32 {
        pow_spec_i32(*self, *rhs as nat)
    }

    fn pow(self, rhs: &'a u32) -> (r: i32) {
        pow_i32(*self, *rhs as usize)
    }
}

impl Pow<usize> for i32 {
    type Output = i32;

    open spec fn pow_spec(self, rhs: usize) -> i32 {
        pow_spec_i32(self, rhs as nat)
    }

    fn pow(self, rhs: usize) -> (r: i32) {
        pow_i32(self, rhs)
    }
}

impl<'a> Pow<&'a usize> for i32 {
    type Output = i32;

    open spec fn pow_spec(self, rhs: &'a usize) -> i32 {
        pow_spec_i32(self, *rhs as nat)
    }

    fn pow(self, rhs: &'a usize) -> (r: i32) {
        pow_i32(self, *rhs)
    }
}

impl<'a> Pow<usize> for &'a i32 {
    type Output = i32;

    open spec fn pow_spec(self, rhs: usize) -> i32 {
        pow_spec_i32(*self, rhs as nat)
    }

    fn pow(self, rhs: usize) -> (r: i32) {
        pow_i32(*self, rhs)
    }
}

impl<'a, 'b> Pow<&'a usize> for &'b i32 {
    type Output = i32;

    open spec fn pow_spec(self, rhs: &'a usize) -> i32 {
        pow_spec_i32(*self, *rhs as nat)
    }

    fn pow(self, rhs: &'a usize) -> (r: i32) {
        pow_i32(*self, *rhs)
    }
}

impl Monoid for i64 {
    open spec fn value(&self) -> int {
        *self as int
    }

    open spec fn in_range(v: int) -> bool {
        i64::MIN as int <= v <= i64::MAX as int
    }

    open spec fn mul_value(a: int, b: int) -> int {
        wrap_signed(a * b, 0x1_0000_0000_0000_0000, i64::MAX as int)
    }

    proof fn lemma_value_in_range(&self) {
    }

    proof fn lemma_one_in_range() {
    }

    proof fn lemma_mul_in_range(a: int, b: int) {
        lemma_wrap_signed_bound(a * b, 0x1_0000_0000_0000_0000, i64::MAX as int);
    }

    proof fn lemma_mul_assoc(a: int, b: int, c: int) {
        lemma_wrap_signed_mul_assoc(a, b, c, 0x1_0000_0000_0000_0000, i64::MAX as int);
    }

    proof fn lemma_mul_exact(a: int, b: int) {
        lemma_wrap_signed_small(a * b, 0x1_0000_0000_0000_0000, i64::MAX as int);
    }

    proof fn lemma_one_identity(a: int) {
        lemma_wrap_signed_mul_identity(a, 0x1_0000_0000_0000_0000, i64::MAX as int);
    }

    fn one() -> (r: Self) {
        1i64
    }

    fn duplicate(&self) -> (r: Self) {
        *self
    }

    fn multiply(self, rhs: Self) -> (r: Self) {
        self.wrapping_mul(rhs)
    }
}

impl CheckedMul for i64 {
    fn checked_mul(&self, rhs: &Self) -> (r: Option<Self>) {
        i64::checked_mul(*self, *rhs)
    }
}

/// What raising an `i64` to a power returns: the iterative wrap-around
/// product, brought back into the type.
pub open spec fn pow_spec_i64(b: i64, e: nat) -> i64 {
    pow_value::<i64>(b as int, e) as i64
}

fn pow_i64(b: i64, e: usize) -> (r: i64)
    ensures
        r == pow_spec_i64(b, e as nat),
{
    let r = pow(b, e);
    proof {
        lemma_pow_value_in_range::<i64>(b as int, e as nat);
    }
    r
}

impl Pow<u8> for i64 {
    type Output = i64;

    open spec fn pow_spec(self, rhs: u8) -> i64 {
        pow_spec_i64(self, rhs as nat)
    }

    fn pow(self, rhs: u8) -> (r: i64) {
        pow_i64(self, rhs as usize)
    }
}

impl<'a> Pow<&'a u8> for i64 {
    type Output = i64;

    open spec fn pow_spec(self, rhs: &'a u8) -> i64 {
        pow_spec_i64(self, *rhs as nat)
    }

    fn pow(self, rhs: &'a u8) -> (r: i64) {
        pow_i64(self, *rhs as usize)
    }
}

impl<'a> Pow<u8> for &'a i64 {
    type Output = i64;

    open spec fn pow_spec(self, rhs: u8) -> i64 {
        pow_spec_i64(*self, rhs as nat)
    }

    fn pow(self, rhs: u8) -> (r: i64) {
        pow_i64(*self, rhs as usize)
    }
}

impl<'a, 'b> Pow<&'a u8> for &'b i64 {
    type Output = i64;

    open spec fn pow_spec(self, rhs: &'a u8) -> i64 {
        pow_spec_i64(*self, *rhs as nat)
    }

    fn pow(self, rhs: &'a u8) -> (r: i64) {
        pow_i64(*self, *rhs as usize)
    }
}

impl Pow<u16> for i64 {
    type Output = i64;

    open spec fn pow_spec(self, rhs: u16) -> i64 {
        pow_spec_i64(self, rhs as nat)
    }

    fn pow(self, rhs: u16) -> (r: i64) {
        pow_i64(self, rhs as usize)
    }
}

impl<'a> Pow<&'a u16> for i64 {
    type Output = i64;

    open spec fn pow_spec(self, rhs: &'a u16) -> i64 {
        pow_spec_i64(self, *rhs as nat)
    }

    fn pow(self, rhs: &'a u16) -> (r: i64) {
        pow_i64(self, *rhs as usize)
    }
}

impl<'a> Pow<u16> for &'a i64 {
    type Output = i64;

    open spec fn pow_spec(self, rhs: u16) -> i64 {
        pow_spec_i64(*self, rhs as nat)
    }

    fn pow(self, rhs: u16) -> (r: i64) {
        pow_i64(*self, rhs as usize)
    }
}

impl<'a, 'b> Pow<&'a u16> for &'b i64 {
    type Output = i64;

    open spec fn pow_spec(self, rhs: &'a u16) -> i64 {
        pow_spec_i64(*self, *rhs as nat)
    }

    fn pow(self, rhs: &'a u16) -> (r: i64) {
        pow_i64(*self, *rhs as usize)
    }
}

impl Pow<u32> for i64 {
    type Output = i64;

    open spec fn pow_spec(self, rhs: u32) -> i64 {
        pow_spec_i64(self, rhs as nat)
    }

    fn pow(self, rhs: u32) -> (r: i64) {
        pow_i64(self, rhs as usize)
    }
}

impl<'a> Pow<&'a u32> for i64 {
    type Output = i64;

    open spec fn pow_spec(self, rhs: &'a u32) -> i64 {
        pow_spec_i64(self, *rhs as nat)
    }

    fn pow(self, rhs: &'a u32) -> (r: i64) {
        pow_i64(self, *rhs as usize)
    }
}

impl<'a> Pow<u32> for &'a i64 {
    type Output = i64;

    open spec fn pow_spec(self, rhs: u32) -> i64 {
        pow_spec_i64(*self, rhs as nat)
    }

    fn pow(self, rhs: u32) -> (r: i64) {
        pow_i64(*self, rhs as usize)
    }
}

impl<'a, 'b> Pow<&'a u32> for &'b i64 {
    type Output = i64;

    open spec fn pow_spec(self, rhs: &'a u32) -> i64 {
        pow_spec_i64(*self, *rhs as nat)
    }

    fn pow(self, rhs: &'a u32) -> (r: i64) {
        pow_i64(*self, *rhs as usize)
    }
}

impl Pow<usize> for i64 {
    type Output = i64;

    open spec fn pow_spec(self, rhs: usize) -> i64 {
        pow_spec_i64(self, rhs as nat)
    }

    fn pow(self, rhs: usize) -> (r: i64) {
        pow_i64(self, rhs)
    }
}

impl<'a> Pow<&'a usize> for i64 {
    type Output = i64;

    open spec fn pow_spec(self, rhs: &'a usize) -> i64 {
        pow_spec_i64(self, *rhs as nat)
    }

    fn pow(self, rhs: &'a usize) -> (r: i64) {
        pow_i64(self, *rhs)
    }
}

impl<'a> Pow<usize> for &'a i64 {
    type Output = i64;

    open spec fn pow_spec(self, rhs: usize) -> i64 {
        pow_spec_i64(*self, rhs as nat)
    }

    fn pow(self, rhs: usize) -> (r: i64) {
        pow_i64(*self, rhs)
    }
}

impl<'a, 'b> Pow<&'a usize> for &'b i64 {
    type Output = i64;

    open spec fn pow_spec(self, rhs: &'a usize) -> i64 {
        pow_spec_i64(*self, *rhs as nat)
    }

    fn pow(self, rhs: &'a usize) -> (r: i64) {
        pow_i64(*self, *rhs)
    }
}

impl Monoid for isize {
    open spec fn value(&self) -> int {
        *self as int
    }

    open spec fn in_range(v: int) -> bool {
        isize::MIN as int <= v <= isize::MAX as int
    }

    open spec fn mul_value(a: int, b: int) -> int {
        wrap_signed(a * b, usize::MAX as int + 1, isize::MAX as int)
    }

    proof fn lemma_value_in_range(&self) {
    }

    proof fn lemma_one_in_range() {
    }

    proof fn lemma_mul_in_range(a: int, b: int) {
        lemma_isize_window();
        lemma_wrap_signed_bound(a * b, usize::MAX as int + 1, isize::MAX as int);
    }

    proof fn lemma_mul_assoc(a: int, b: int, c: int) {
        lemma_isize_window();
        lemma_wrap_signed_mul_assoc(a, b, c, usize::MAX as int + 1, isize::MAX as int);
    }

    proof fn lemma_mul_exact(a: int, b: int) {
        lemma_isize_window();
        lemma_wrap_signed_small(a * b, usize::MAX as int + 1, isize::MAX as int);
    }

    proof fn lemma_one_identity(a: int) {
        lemma_isize_window();
        lemma_wrap_signed_mul_identity(a, usize::MAX as int + 1, isize::MAX as int);
    }

    fn one() -> (r: Self) {
        1isize
    }

    fn duplicate(&self) -> (r: Self) {
        *self
    }

    fn multiply(self, rhs: Self) -> (r: Self) {
        self.wrapping_mul(rhs)
    }
}

impl CheckedMul for isize {
    fn checked_mul(&self, rhs: &Self) -> (r: Option<Self>) {
        isize::checked_mul(*self, *rhs)
    }
}

/// What raising an `isize` to a power returns: the iterative wrap-around
/// product, brought back into the type.
pub open spec fn pow_spec_isize(b: isize, e: nat) -> isize {
    pow_value::<isize>(b as int, e) as isize
}

fn pow_isize(b: isize, e: usize) -> (r: isize)
    ensures
        r == pow_spec_isize(b, e as nat),
{
    let r = pow(b, e);
    proof {
        lemma_pow_value_in_range::<isize>(b as int, e as nat);
    }
    r
}

impl Pow<u8> for isize {
    type Output = isize;

    open spec fn pow_spec(self, rhs: u8) -> isize {
        pow_spec_isize(self, rhs as nat)
    }

    fn pow(self, rhs: u8) -> (r: isize) {
        pow_isize(self, rhs as usize)
    }
}

impl<'a> Pow<&'a u8> for isize {
    type Output = isize;

    open spec fn pow_spec(self, rhs: &'a u8) -> isize {
        pow_spec_isize(self, *rhs as nat)
    }

    fn pow(self, rhs: &'a u8) -> (r: isize) {
        pow_isize(self, *rhs as usize)
    }
}

impl<'a> Pow<u8> for &'a isize {
    type Output = isize;

    open spec fn pow_spec(self, rhs: u8) -> isize {
        pow_spec_isize(*self, rhs as nat)
    }

    fn pow(self, rhs: u8) -> (r: isize) {
        pow_isize(*self, rhs as usize)
    }
}

impl<'a, 'b> Pow<&'a u8> for &'b isize {
    type Output = isize;

    open spec fn pow_spec(self, rhs: &'a u8) -> isize {
        pow_spec_isize(*self, *rhs as nat)
    }

    fn pow(self, rhs: &'a u8) -> (r: isize) {
        pow_isize(*self, *rhs as usize)
    }
}

impl Pow<u16> for isize {
    type Output = isize;

    open spec fn pow_spec(self, rhs: u16) -> isize {
        pow_spec_isize(self, rhs as nat)
    }

    fn pow(self, rhs: u16) -> (r: isize) {
        pow_isize(self, rhs as usize)
    }
}

impl<'a> Pow<&'a u16> for isize {
    type Output = isize;

    open spec fn pow_spec(self, rhs: &'a u16) -> isize {
        pow_spec_isize(self, *rhs as nat)
    }

    fn pow(self, rhs: &'a u16) -> (r: isize) {
        pow_isize(self, *rhs as usize)
    }
}

impl<'a> Pow<u16> for &'a isize {
    type Output = isize;

    open spec fn pow_spec(self, rhs: u16) -> isize {
        pow_spec_isize(*self, rhs as nat)
    }

    fn pow(self, rhs: u16) -> (r: isize) {
        pow_isize(*self, rhs as usize)
    }
}

impl<'a, 'b> Pow<&'a u16> for &'b isize {
    type Output = isize;

    open spec fn pow_spec(self, rhs: &'a u16) -> isize {
        pow_spec_isize(*self, *rhs as nat)
    }

    fn pow(self, rhs: &'a u16) -> (r: isize) {
        pow_isize(*self, *rhs as usize)
    }
}

impl Pow<u32> for isize {
    type Output = isize;

    open spec fn pow_spec(self, rhs: u32) -> isize {
        pow_spec_isize(self, rhs as nat)
    }

    fn pow(self, rhs: u32) -> (r: isize) {
        pow_isize(self, rhs as usize)
    }
}

impl<'a> Pow<&'a u32> for isize {
    type Output = isize;

    open spec fn pow_spec(self, rhs: &'a u32) -> isize {
        pow_spec_isize(self, *rhs as nat)
    }

    fn pow(self, rhs: &'a u32) -> (r: isize) {
        pow_isize(self, *rhs as usize)
    }
}

impl<'a> Pow<u32> for &'a isize {
    type Output = isize;

    open spec fn pow_spec(self, rhs: u32) -> isize {
        pow_spec_isize(*self, rhs as nat)
    }

    fn pow(self, rhs: u32) -> (r: isize) {
        pow_isize(*self, rhs as usize)
    }
}

impl<'a, 'b> Pow<&'a u32> for &'b isize {
    type Output = isize;

    open spec fn pow_spec(self, rhs: &'a u32) -> isize {
        pow_spec_isize(*self, *rhs as nat)
    }

    fn pow(self, rhs: &'a u32) -> (r: isize) {
        pow_isize(*self, *rhs as usize)
    }
}

impl Pow<usize> for isize {
    type Output = isize;

    open spec fn pow_spec(self, rhs: usize) -> isize {
        pow_spec_isize(self, rhs as nat)
    }

    fn pow(self, rhs: usize) -> (r: isize) {
        pow_isize(self, rhs)
    }
}

impl<'a> Pow<&'a usize> for isize {
    type Output = isize;

    open spec fn pow_spec(self, rhs: &'a usize) -> isize {
        pow_spec_isize(self, *rhs as nat)
    }

    fn pow(self, rhs: &'a usize) -> (r: isize) {
        pow_isize(self, *rhs)
    }
}

impl<'a> Pow<usize> for &'a isize {
    type Output = isize;

    open spec fn pow_spec(self, rhs: usize) -> isize {
        pow_spec_isize(*self, rhs as nat)
    }

    fn pow(self, rhs: usize) -> (r: isize) {
        pow_isize(*self, rhs)
    }
}

impl<'a, 'b> Pow<&'a usize> for &'b isize {
    type Output = isize;

    open spec fn pow_spec(self, rhs: &'a usize) -> isize {
        pow_spec_isize(*self, *rhs as nat)
    }

    fn pow(self, rhs: &'a usize) -> (r: isize) {
        pow_isize(*self, *rhs)
    }
}

} // verus!
