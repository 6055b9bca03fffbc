//! Exponentiation by squaring over any numeric type that offers a
//! multiplicative identity and a multiplication of its own.
//!
//! The squaring engine lives in [`pow`]: an unchecked variant whose result is
//! the iterative product under the type's own (wrapping) multiplication, and
//! a checked variant that reports overflow instead of wrapping.  The numeric
//! capabilities the engine consumes are the traits of [`monoid`], and
//! [`bindings`] wires every primitive integer type, with each of its
//! supported exponent widths, into the [`pow::Pow`] operator.  The facts
//! about products reduced modulo a power of two, which make wrap-around
//! multiplication associative with identity `1`, stand in [`modular`].

pub mod bindings;
pub mod modular;
pub mod monoid;
pub mod pow;
