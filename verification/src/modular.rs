//! Facts about products reduced modulo a fixed range: the arithmetic behind
//! the wrap-around multiplication of the integer bindings.

use vstd::prelude::*;

verus! {

use vstd::arithmetic::div_mod::lemma_mod_add_multiples_vanish;
use vstd::arithmetic::div_mod::lemma_mod_bound;
use vstd::arithmetic::div_mod::lemma_mul_mod_noop_general;
use vstd::arithmetic::div_mod::lemma_small_mod;
use vstd::arithmetic::mul::lemma_mul_is_associative;

/// Reduction of `v` into the window `[max + 1 - r, max]` of width `r`: for
/// `r == 2 * (max + 1)` this is two's-complement wrap-around, as the signed
/// bindings use it.
pub open spec fn wrap_signed(v: int, r: int, max: int) -> int {
    if v % r > max {
        v % r - r
    } else {
        v % r
    }
}

/// A product reduced modulo `r` stays within `[0, r)`.
pub proof fn lemma_mod_mul_bound(a: int, b: int, r: int)
    requires
        r > 0,
    ensures
        0 <= (a * b) % r < r,
{
    lemma_mod_bound(a * b, r);
}

/// Reducing modulo `r` after each factor gives the same product as reducing
/// once at the end, so modular multiplication is associative.
pub proof fn lemma_mod_mul_assoc(a: int, b: int, c: int, r: int)
    requires
        r > 0,
    ensures
        (((a * b) % r) * c) % r == ((a * (b * c)) % r),
        (a * ((b * c) % r)) % r == ((a * (b * c)) % r),
{
    lemma_mul_is_associative(a, b, c);
    lemma_mul_mod_noop_general(a * b, c, r);
    lemma_mul_mod_noop_general(a, b * c, r);
}

/// `1` is an identity of multiplication modulo `r` on `[0, r)`.
pub proof fn lemma_mod_mul_identity(a: int, r: int)
    requires
        r > 0,
        0 <= a < r,
    ensures
        (1 * a) % r == a,
        (a * 1) % r == a,
{
    lemma_small_mod(a as nat, r as nat);
}

/// A value below the modulus is left unchanged by reduction.
pub proof fn lemma_mod_small_value(v: int, r: int)
    requires
        r > 0,
        0 <= v < r,
    ensures
        v % r == v,
{
    lemma_small_mod(v as nat, r as nat);
}

/// `wrap_signed` only looks at its argument modulo `r`.
pub proof fn lemma_wrap_signed_congruence(x: int, y: int, r: int, max: int)
    requires
        r > 0,
        x % r == y % r,
    ensures
        wrap_signed(x, r, max) == wrap_signed(y, r, max),
{
}

/// Wrap-around reduction lands in the window `[-(max + 1), max]`.
pub proof fn lemma_wrap_signed_bound(v: int, r: int, max: int)
    requires
        r == 2 * (max + 1),
        max >= 0,
    ensures
        -(max + 1) <= wrap_signed(v, r, max) <= max,
{
    lemma_mod_bound(v, r);
}

/// A value already inside the window is left unchanged by wrap-around.
pub proof fn lemma_wrap_signed_small(a: int, r: int, max: int)
    requires
        r == 2 * (max + 1),
        max >= 0,
        -(max + 1) <= a <= max,
    ensures
        wrap_signed(a, r, max) == a,
{
    if a >= 0 {
        lemma_small_mod(a as nat, r as nat);
    } else {
        lemma_mod_add_multiples_vanish(a, r);
        lemma_small_mod((a + r) as nat, r as nat);
    }
}

/// Wrap-around reduction of an already-reduced factor does not change the
/// reduced product, so wrap-around multiplication is associative.
pub proof fn lemma_wrap_signed_mul_assoc(a: int, b: int, c: int, r: int, max: int)
    requires
        r == 2 * (max + 1),
        max >= 0,
    ensures
        wrap_signed(wrap_signed(a * b, r, max) * c, r, max) == wrap_signed(a * (b * c), r, max),
        wrap_signed(a * wrap_signed(b * c, r, max), r, max) == wrap_signed(a * (b * c), r, max),
{
    lemma_mul_is_associative(a, b, c);
    let w1 = wrap_signed(a * b, r, max);
    lemma_mod_bound(a * b, r);
    lemma_small_mod(((a * b) % r) as nat, r as nat);
    lemma_mod_add_multiples_vanish((a * b) % r - r, r);
    assert(w1 % r == (a * b) % r);
    lemma_mul_mod_noop_general(w1, c, r);
    lemma_mul_mod_noop_general(a * b, c, r);
    assert((w1 * c) % r == ((a * b) * c) % r);
    lemma_wrap_signed_congruence(w1 * c, a * (b * c), r, max);
    let w2 = wrap_signed(b * c, r, max);
    lemma_mod_bound(b * c, r);
    lemma_small_mod(((b * c) % r) as nat, r as nat);
    lemma_mod_add_multiples_vanish((b * c) % r - r, r);
    assert(w2 % r == (b * c) % r);
    lemma_mul_mod_noop_general(a, w2, r);
    lemma_mul_mod_noop_general(a, b * c, r);
    assert((a * w2) % r == (a * (b * c)) % r);
    lemma_wrap_signed_congruence(a * w2, a * (b * c), r, max);
}

/// `1` is an identity of wrap-around multiplication on the window.
pub proof fn lemma_wrap_signed_mul_identity(a: int, r: int, max: int)
    requires
        r == 2 * (max + 1),
        max >= 0,
        -(max + 1) <= a <= max,
    ensures
        wrap_signed(1 * a, r, max) == a,
        wrap_signed(a * 1, r, max) == a,
{
    lemma_wrap_signed_small(a, r, max);
}

/// The window of `isize` inside the range of `usize`, on any architecture:
/// `isize` covers exactly the lower half of the `usize` range, in
/// two's-complement fashion.
pub proof fn lemma_isize_window()
    ensures
        usize::MAX as int + 1 == 2 * (isize::MAX as int + 1),
        isize::MIN as int == -(isize::MAX as int) - 1,
{
    broadcast use vstd::layout::layout_of_primitives;

    vstd::layout::unsigned_int_max_values();
    vstd::layout::signed_int_min_max_values();
}

} // verus!
