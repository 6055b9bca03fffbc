//! The squaring engine and the power operator.
//!
//! `pow` raises a value to a non-negative power with exponentiation by
//! squaring, under the type's own multiplication — for the integer bindings
//! that is wrapping multiplication, so the result is the iterative product
//! under the type's wrap-around semantics.  `checked_pow` runs the same
//! loop with overflow-checked multiplication and reports the first overflow
//! instead of wrapping.  The `Pow` trait exposes the same computation as a
//! binary operator, one binding per (base type, exponent type) pair.

use vstd::prelude::*;

verus! {

use crate::monoid::CheckedMul;
use crate::monoid::Monoid;
use crate::monoid::lemma_pow_value_add;
use crate::monoid::lemma_pow_value_in_range;
use crate::monoid::lemma_pow_value_one;
use crate::monoid::lemma_pow_value_square;
use crate::monoid::pow_value;

/// Binary operator for raising a value to a power.
pub trait Pow<Rhs> {
    /// The result after applying the operator.
    type Output;

    /// What the operator returns.
    spec fn pow_spec(self, rhs: Rhs) -> Self::Output;

    /// Returns `self` to the power `rhs`.
    fn pow(self, rhs: Rhs) -> (r: Self::Output)
        ensures
            r == self.pow_spec(rhs),
    ;
}

/// The exact mathematical power, free of any wrap-around.
pub open spec fn pow_int(b: int, e: nat) -> int {
    vstd::arithmetic::power::pow(b, e)
}

/// The floor of the base-2 logarithm; `0` for inputs below `2`.
pub open spec fn log2(n: nat) -> nat
    decreases n,
{
    if n < 2 {
        0
    } else {
        1 + log2(n / 2)
    }
}

/// Where every power of `b` up to the `e`-th is representable, the
/// iterative product under the type's own multiplication is the exact
/// mathematical power: no wrap-around takes place, so `pow` and
/// `checked_pow` return the same value there.
pub proof fn lemma_pow_value_exact<T: Monoid>(b: int, e: nat)
    requires
        T::in_range(b),
        forall|k: nat| 1 <= k <= e ==> #[trigger] T::in_range(pow_int(b, k)),
    ensures
        pow_value::<T>(b, e) == pow_int(b, e),
    decreases e,
{
    if e == 0 {
        vstd::arithmetic::power::lemma_pow0(b);
    } else {
        lemma_pow_value_exact::<T>(b, (e - 1) as nat);
        vstd::arithmetic::power::lemma_pow_adds(b, (e - 1) as nat, 1);
        vstd::arithmetic::power::lemma_pow1(b);
        if e == 1 {
            vstd::arithmetic::power::lemma_pow0(b);
            T::lemma_one_in_range();
        }
        assert(pow_int(b, e) == pow_int(b, (e - 1) as nat) * b);
        assert(T::in_range(pow_int(b, e)));
        T::lemma_mul_exact(pow_int(b, (e - 1) as nat), b);
    }
}

/// On a type whose representable values are exactly `0 ..= mx`, all smaller
/// powers of `b` fit as soon as the `e`-th power does.  Together with the
/// contract of [`checked_pow`] this owes the caller a `Some` on every
/// unsigned base whose final power is representable: only the final power
/// can be the one that overflows.
pub proof fn lemma_smaller_powers_fit<T: Monoid>(b: int, e: nat, mx: int)
    requires
        forall|v: int| T::in_range(v) <==> 0 <= v <= mx,
        0 <= b,
        T::in_range(pow_int(b, e)),
    ensures
        forall|k: nat| 1 <= k <= e ==> #[trigger] T::in_range(pow_int(b, k)),
{
    assert forall|k: nat| 1 <= k <= e implies #[trigger] T::in_range(pow_int(b, k)) by {
        if b == 0 {
            vstd::arithmetic::power::lemma0_pow(k);
        } else {
            vstd::arithmetic::power::lemma_pow_increases(b as nat, k, e);
            vstd::arithmetic::power::lemma_pow_positive(b, k);
        }
    }
}

/// The magnitude of a power of a negative base is the same power of the
/// negated base; only the sign can differ.
proof fn lemma_pow_magnitude(b: int, k: nat)
    requires
        b < 0,
    ensures
        pow_int(b, k) == pow_int(-b, k) || pow_int(b, k) == -pow_int(-b, k),
    decreases k,
{
    if k == 0 {
        vstd::arithmetic::power::lemma_pow0(b);
        vstd::arithmetic::power::lemma_pow0(-b);
    } else {
        lemma_pow_magnitude(b, (k - 1) as nat);
        vstd::arithmetic::power::lemma_pow_adds(b, (k - 1) as nat, 1);
        vstd::arithmetic::power::lemma_pow1(b);
        vstd::arithmetic::power::lemma_pow_adds(-b, (k - 1) as nat, 1);
        vstd::arithmetic::power::lemma_pow1(-b);
        let x: int = pow_int(b, (k - 1) as nat);
        let y: int = pow_int(-b, (k - 1) as nat);
        assert(x == y ==> x * b == -(y * -b)) by (nonlinear_arith);
        assert(x == -y ==> x * b == y * -b) by (nonlinear_arith);
    }
}

/// On a type whose representable values are exactly `-(mx + 1) ..= mx` — a
/// two's-complement window — all smaller powers of `b` fit as soon as the
/// `e`-th power does, so together with the contract of [`checked_pow`] a
/// `Some` is owed whenever the final power is representable.
pub proof fn lemma_smaller_powers_fit_signed<T: Monoid>(b: int, e: nat, mx: int)
    requires
        forall|v: int| T::in_range(v) <==> -(mx + 1) <= v <= mx,
        1 <= mx,
        T::in_range(b),
        T::in_range(pow_int(b, e)),
    ensures
        forall|k: nat| 1 <= k <= e ==> #[trigger] T::in_range(pow_int(b, k)),
{
    let a: int = if b < 0 {
        -b
    } else {
        b
    };
    assert forall|k: nat| 1 <= k <= e implies #[trigger] T::in_range(pow_int(b, k)) by {
        if a == 0 {
            vstd::arithmetic::power::lemma0_pow(k);
        } else if a == 1 {
            if b < 0 {
                lemma_pow_magnitude(b, k);
            }
            vstd::arithmetic::power::lemma1_pow(k);
        } else {
            if b < 0 {
                lemma_pow_magnitude(b, k);
                lemma_pow_magnitude(b, e);
            }
            vstd::arithmetic::power::lemma_pow_positive(a, k);
            vstd::arithmetic::power::lemma_pow_positive(a, e);
            assert(pow_int(b, e) == pow_int(a, e) || pow_int(b, e) == -pow_int(a, e));
            assert(pow_int(a, e) <= mx + 1);
            if k < e {
                vstd::arithmetic::power::lemma_pow_increases(a as nat, k, (e - 1) as nat);
                vstd::arithmetic::power::lemma_pow_adds(a, (e - 1) as nat, 1);
                vstd::arithmetic::power::lemma_pow1(a);
                vstd::arithmetic::power::lemma_pow_positive(a, (e - 1) as nat);
                let z: int = pow_int(a, (e - 1) as nat);
                vstd::arithmetic::mul::lemma_mul_inequality(2, a, z);
                assert(pow_int(a, e) == z * a);
                assert(a * z == z * a) by (nonlinear_arith);
                assert(z <= mx);
                assert(pow_int(a, k) <= z);
                assert(pow_int(b, k) == pow_int(a, k) || pow_int(b, k) == -pow_int(a, k));
            }
        }
    }
}

/// Raises a value to the power of `exp`, using exponentiation by squaring.
///
/// The result is the iterative product of `base` taken `exp` times under the
/// type's own multiplication: exponent `0` gives the multiplicative identity
/// for every base, and exponent `1` gives the base back unchanged.
pub fn pow<T: Monoid>(base: T, exp: usize) -> (r: T)
    ensures
        r.value() == pow_value::<T>(base.value(), exp as nat),
        exp == 0 ==> r.value() == 1,
        exp == 1 ==> r.value() == base.value(),
{
    proof {
        base.lemma_value_in_range();
        if exp == 1 {
            lemma_pow_value_one::<T>(base.value());
        }
    }
    let (r, _count) = pow_counted(base, exp);
    r
}

/// As [`pow`], but also yields, as a ghost value, how many multiplications
/// the squaring loop performed: at most `2 * log2(exp)` of them, and none at
/// all for exponents `0` and `1`.
pub fn pow_counted<T: Monoid>(base: T, exp: usize) -> (r: (T, Ghost<nat>))
    ensures
        r.0.value() == pow_value::<T>(base.value(), exp as nat),
        r.1@ <= 2 * log2(exp as nat),
{
    let ghost b0 = base.value();
    let ghost e0 = exp as nat;
    proof {
        base.lemma_value_in_range();
    }
    if exp == 0 {
        return (T::one(), Ghost(0));
    }
    let mut b = base;
    let mut e: usize = exp;
    let ghost mut count: nat = 0;
    while e % 2 == 0
        invariant
            1 <= e,
            T::in_range(b.value()),
            pow_value::<T>(b.value(), e as nat) == pow_value::<T>(b0, e0),
            count + log2(e as nat) == log2(e0),
        decreases e,
    {
        let ghost bv = b.value();
        let ghost ec = e as nat;
        b = b.duplicate().multiply(b);
        e = e / 2;
        proof {
            count = count + 1;
            b.lemma_value_in_range();
            lemma_pow_value_square::<T>(bv, e as nat);
            assert(2 * (e as nat) == ec);
            assert(log2(ec) == 1 + log2(e as nat));
        }
    }
    if e == 1 {
        proof {
            lemma_pow_value_one::<T>(b.value());
        }
        return (b, Ghost(count));
    }
    let mut acc = b.duplicate();
    proof {
        lemma_pow_value_add::<T>(b.value(), 1, (e - 1) as nat);
        lemma_pow_value_one::<T>(b.value());
        lemma_pow_value_in_range::<T>(b.value(), (e - 1) as nat);
    }
    while e > 1
        invariant
            1 <= e,
            T::in_range(acc.value()),
            T::in_range(b.value()),
            T::mul_value(acc.value(), pow_value::<T>(b.value(), (e - e % 2) as nat))
                == pow_value::<T>(b0, e0),
            count + 2 * log2(e as nat) <= 2 * log2(e0),
        decreases e,
    {
        let ghost av = acc.value();
        let ghost bv = b.value();
        let ghost ec = e as nat;
        e = e / 2;
        b = b.duplicate().multiply(b);
        proof {
            count = count + 1;
        }
        if e % 2 == 1 {
            acc = acc.multiply(b.duplicate());
            proof {
                count = count + 1;
            }
        }
        proof {
            b.lemma_value_in_range();
            acc.lemma_value_in_range();
            let half = e as nat;
            assert(ec - ec % 2 == 2 * half);
            assert(log2(ec) == 1 + log2(half));
            lemma_pow_value_square::<T>(bv, (half - half % 2) as nat);
            if half % 2 == 1 {
                // acc picked up one copy of the squared base
                lemma_pow_value_square::<T>(bv, (half - 1) as nat);
                lemma_pow_value_in_range::<T>(bv, (2 * half - 2) as nat);
                T::lemma_mul_in_range(bv, bv);
                let sq = T::mul_value(bv, bv);
                T::lemma_mul_assoc(av, sq, pow_value::<T>(bv, (2 * half - 2) as nat));
                lemma_pow_value_add::<T>(bv, 1, 1);
                lemma_pow_value_one::<T>(bv);
                lemma_pow_value_add::<T>(bv, 2, (2 * half - 2) as nat);
            }
        }
    }
    proof {
        T::lemma_one_identity(acc.value());
    }
    (acc, Ghost(count))
}

/// Raises a value to the power of `exp` with overflow-checked
/// multiplication, returning `None` if an overflow occurred.
///
/// Exponents `0` and `1` perform no multiplication, so they cannot overflow.
/// Otherwise the result is `Some` of the exact mathematical power whenever
/// every intermediate product of the squaring loop — each of them `base`
/// raised to some exponent between `2` and `exp` — is representable, and
/// `None` as soon as one of them is not.
#[verifier::loop_isolation(false)]
pub fn checked_pow<T: CheckedMul>(base: T, exp: usize) -> (r: Option<T>)
    ensures
        match r {
            Some(v) => v.value() == pow_int(base.value(), exp as nat),
            None => exists|k: nat|
                2 <= k <= exp && !(#[trigger] T::in_range(pow_int(base.value(), k))),
        },
        (forall|k: nat| 1 <= k <= exp ==> #[trigger] T::in_range(pow_int(base.value(), k)))
            ==> r is Some,
{
    let ghost b0 = base.value();
    let ghost e0 = exp as nat;
    if exp == 0 {
        proof {
            vstd::arithmetic::power::lemma_pow0(b0);
        }
        return Some(T::one());
    }
    let mut b = base;
    let mut e: usize = exp;
    let ghost mut p: nat = 1;
    proof {
        vstd::arithmetic::power::lemma_pow1(b0);
    }
    while e % 2 == 0
        invariant
            1 <= e,
            1 <= p,
            p * (e as nat) == e0,
            b.value() == pow_int(b0, p),
        decreases e,
    {
        let ghost pv = p;
        let ghost ec = e as nat;
        let squared = b.checked_mul(&b);
        proof {
            vstd::arithmetic::power::lemma_pow_adds(b0, pv, pv);
            assert(pv * ec >= pv * 2) by (nonlinear_arith)
                requires
                    pv >= 1,
                    ec >= 2,
            ;
        }
        match squared {
            Some(v) => {
                b = v;
            },
            None => {
                proof {
                    assert(pow_int(b0, pv + pv) == pow_int(b0, pv) * pow_int(b0, pv));
                    assert(2 <= pv + pv <= e0);
                    assert(exists|k: nat|
                        2 <= k <= e0 && !(#[trigger] T::in_range(pow_int(b0, k))));
                }
                return None;
            },
        }
        e = e / 2;
        proof {
            p = 2 * pv;
            assert(p * (e as nat) == pv * ec) by (nonlinear_arith)
                requires
                    p == 2 * pv,
                    ec == 2 * (e as nat),
            ;
        }
    }
    if e == 1 {
        proof {
            assert(p * 1 == p) by (nonlinear_arith);
        }
        return Some(b);
    }
    let mut acc = b.duplicate();
    let ghost mut m: nat = p;
    proof {
        assert(p + p * ((e - 1) as nat) == p * (e as nat)) by (nonlinear_arith)
            requires
                e >= 1,
        ;
    }
    while e > 1
        invariant
            1 <= e,
            1 <= p,
            1 <= m,
            m + p * ((e - e % 2) as nat) == e0,
            acc.value() == pow_int(b0, m),
            b.value() == pow_int(b0, p),
        decreases e,
    {
        let ghost pv = p;
        let ghost mv = m;
        let ghost ec = e as nat;
        let ghost half = (e / 2) as nat;
        proof {
            assert(ec - ec % 2 == 2 * half);
            assert(mv + pv * (2 * half) == e0);
            assert(2 * pv * half == pv * (2 * half) && pv * (2 * half) >= 2 * pv
                && 2 * pv * ((half - 1) as nat) == 2 * pv * half - 2 * pv) by (nonlinear_arith)
                requires
                    pv >= 1,
                    half >= 1,
            ;
        }
        e = e / 2;
        let squared = b.checked_mul(&b);
        proof {
            vstd::arithmetic::power::lemma_pow_adds(b0, pv, pv);
        }
        match squared {
            Some(v) => {
                b = v;
            },
            None => {
                proof {
                    assert(pow_int(b0, pv + pv) == pow_int(b0, pv) * pow_int(b0, pv));
                    assert(2 <= pv + pv <= e0);
                    assert(exists|k: nat|
                        2 <= k <= e0 && !(#[trigger] T::in_range(pow_int(b0, k))));
                }
                return None;
            },
        }
        proof {
            p = 2 * pv;
        }
        if e % 2 == 1 {
            let grown = acc.checked_mul(&b);
            proof {
                vstd::arithmetic::power::lemma_pow_adds(b0, mv, p);
            }
            match grown {
                Some(v) => {
                    acc = v;
                },
                None => {
                    proof {
                        assert(pow_int(b0, mv + p) == pow_int(b0, mv) * pow_int(b0, p));
                        assert(2 <= mv + p <= e0);
                        assert(exists|k: nat|
                            2 <= k <= e0 && !(#[trigger] T::in_range(pow_int(b0, k))));
                    }
                    return None;
                },
            }
            proof {
                m = mv + p;
            }
        }
    }
    proof {
        let ghost z = (e - e % 2) as nat;
        assert(p * z == 0) by (nonlinear_arith)
            requires
                z == 0,
        ;
    }
    Some(acc)
}

} // verus!
