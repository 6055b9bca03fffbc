//! The numeric capabilities the squaring engine consumes: duplication, a
//! multiplicative identity, the type's own multiplication, and optionally an
//! overflow-checked multiplication.

use vstd::prelude::*;

verus! {

/// A multiplicative monoid seen through a mathematical view.
///
/// `value` maps each element to the integer it stands for, `in_range`
/// delimits the representable values, and `mul_value` says, on those values,
/// what the type's own multiplication returns.  The proof obligations make
/// that multiplication associative with `1` as its identity, which is what
/// lets the squaring engine regroup multiplications without changing the
/// result.
pub trait Monoid: Sized {
    /// The integer this element stands for.
    spec fn value(&self) -> int;

    /// The integers the type can represent.
    spec fn in_range(v: int) -> bool;

    /// What the type's own multiplication returns, on represented values.
    spec fn mul_value(a: int, b: int) -> int;

    /// Every element stands for a representable value.
    proof fn lemma_value_in_range(&self)
        ensures
            Self::in_range(self.value()),
    ;

    /// The multiplicative identity is representable.
    proof fn lemma_one_in_range()
        ensures
            Self::in_range(1),
    ;

    /// Multiplication does not leave the representable values.
    proof fn lemma_mul_in_range(a: int, b: int)
        requires
            Self::in_range(a),
            Self::in_range(b),
        ensures
            Self::in_range(Self::mul_value(a, b)),
    ;

    /// Multiplication is associative on representable values.
    proof fn lemma_mul_assoc(a: int, b: int, c: int)
        requires
            Self::in_range(a),
            Self::in_range(b),
            Self::in_range(c),
        ensures
            Self::mul_value(Self::mul_value(a, b), c) == Self::mul_value(
                a,
                Self::mul_value(b, c),
            ),
    ;

    /// Where the exact product is representable, the type's multiplication
    /// returns it exactly.
    proof fn lemma_mul_exact(a: int, b: int)
        requires
            Self::in_range(a),
            Self::in_range(b),
            Self::in_range(a * b),
        ensures
            Self::mul_value(a, b) == a * b,
    ;

    /// `1` is a left and a right identity of the multiplication.
    proof fn lemma_one_identity(a: int)
        requires
            Self::in_range(a),
        ensures
            Self::mul_value(1, a) == a,
            Self::mul_value(a, 1) == a,
    ;

    /// The multiplicative identity.
    fn one() -> (r: Self)
        ensures
            r.value() == 1,
    ;

    /// A copy of this element.
    fn duplicate(&self) -> (r: Self)
        ensures
            r.value() == self.value(),
    ;

    /// The type's own multiplication.
    fn multiply(self, rhs: Self) -> (r: Self)
        ensures
            r.value() == Self::mul_value(self.value(), rhs.value()),
    ;
}

/// Overflow-signalling multiplication: the exact product where the type can
/// represent it, and `None` where it cannot.
pub trait CheckedMul: Monoid {
    /// The exact product of the two values, or `None` on overflow.
    fn checked_mul(&self, rhs: &Self) -> (r: Option<Self>)
        ensures
            match r {
                Some(p) => Self::in_range(self.value() * rhs.value()) && p.value()
                    == self.value() * rhs.value(),
                None => !Self::in_range(self.value() * rhs.value()),
            },
    ;
}

/// `b` multiplied by itself `e` times under the type's own multiplication:
/// the iterative product that the unchecked engine computes.
pub open spec fn pow_value<T: Monoid>(b: int, e: nat) -> int
    decreases e,
{
    if e == 0 {
        1
    } else {
        T::mul_value(pow_value::<T>(b, (e - 1) as nat), b)
    }
}

/// Iterated products stay representable.
pub proof fn lemma_pow_value_in_range<T: Monoid>(b: int, e: nat)
    requires
        T::in_range(b),
    ensures
        T::in_range(pow_value::<T>(b, e)),
    decreases e,
{
    if e == 0 {
        T::lemma_one_in_range();
    } else {
        lemma_pow_value_in_range::<T>(b, (e - 1) as nat);
        T::lemma_mul_in_range(pow_value::<T>(b, (e - 1) as nat), b);
    }
}

/// Raising to the first power returns the value unchanged.
pub proof fn lemma_pow_value_one<T: Monoid>(b: int)
    requires
        T::in_range(b),
    ensures
        pow_value::<T>(b, 1) == b,
{
    assert(pow_value::<T>(b, 0) == 1);
    T::lemma_one_identity(b);
}

/// Iterated products compose: `b^e1 * b^e2 == b^(e1 + e2)`.
pub proof fn lemma_pow_value_add<T: Monoid>(b: int, e1: nat, e2: nat)
    requires
        T::in_range(b),
    ensures
        pow_value::<T>(b, e1 + e2) == T::mul_value(pow_value::<T>(b, e1), pow_value::<T>(b, e2)),
    decreases e2,
{
    lemma_pow_value_in_range::<T>(b, e1);
    if e2 == 0 {
        T::lemma_one_identity(pow_value::<T>(b, e1));
    } else {
        lemma_pow_value_add::<T>(b, e1, (e2 - 1) as nat);
        lemma_pow_value_in_range::<T>(b, (e2 - 1) as nat);
        T::lemma_mul_assoc(pow_value::<T>(b, e1), pow_value::<T>(b, (e2 - 1) as nat), b);
        assert(e1 + e2 - 1 == e1 + (e2 - 1) as nat);
    }
}

/// Squaring the base halves the exponent: `(b * b)^e == b^(2 * e)`.
pub proof fn lemma_pow_value_square<T: Monoid>(b: int, e: nat)
    requires
        T::in_range(b),
    ensures
        pow_value::<T>(T::mul_value(b, b), e) == pow_value::<T>(b, 2 * e),
    decreases e,
{
    T::lemma_mul_in_range(b, b);
    if e > 0 {
        lemma_pow_value_square::<T>(b, (e - 1) as nat);
        lemma_pow_value_add::<T>(b, (2 * e - 2) as nat, 2);
        lemma_pow_value_add::<T>(b, 1, 1);
        lemma_pow_value_one::<T>(b);
        assert(pow_value::<T>(b, 2) == T::mul_value(b, b));
        assert(2 * e == (2 * e - 2) as nat + 2);
    }
}

/// Raising a power to a power multiplies the exponents, whatever the
/// wrap-around behaviour of the multiplication: `(b^e1)^e2 == b^(e1 * e2)`.
pub proof fn lemma_pow_value_compose<T: Monoid>(b: int, e1: nat, e2: nat)
    requires
        T::in_range(b),
    ensures
        pow_value::<T>(pow_value::<T>(b, e1), e2) == pow_value::<T>(b, e1 * e2),
    decreases e2,
{
    lemma_pow_value_in_range::<T>(b, e1);
    if e2 == 0 {
        assert(e1 * 0 == 0);
    } else {
        lemma_pow_value_compose::<T>(b, e1, (e2 - 1) as nat);
        lemma_pow_value_add::<T>(b, e1 * (e2 - 1) as nat, e1);
        assert(e1 * e2 == e1 * (e2 - 1) as nat + e1) by (nonlinear_arith)
            requires
                e2 >= 1,
        ;
    }
}

} // verus!
