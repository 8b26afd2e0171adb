//! The scalar capability that the engine is written against.
//!
//! Every operation on the generic coordinate type `T` goes through one of the
//! functions below, each a thin call into `num_traits` (or `rand`, for drawing a
//! uniform variate). Floating-point results carry no contract: the engine's
//! guarantees are the ones that hold whatever value comes back.
use num_traits::{Float, FloatConst};
use rand::distr::uniform::SampleUniform;
use vstd::prelude::*;

verus! {

/// `rand`'s standard generator, carried through as an opaque value.
#[verifier::external_type_specification]
#[verifier::external_body]
pub struct ExStdRng(rand::rngs::StdRng);

/// Relies on `num_traits::Zero::zero` (a supertrait of `Float`).
#[verifier::external_body]
pub(crate) fn zero<T: Float>() -> T {
    T::zero()
}

/// Relies on `num_traits::One::one` (a supertrait of `Float`).
#[verifier::external_body]
pub(crate) fn one<T: Float>() -> T {
    T::one()
}

/// Relies on `std::ops::Add::add` for `T`.
#[verifier::external_body]
pub(crate) fn plus<T: Float>(a: T, b: T) -> T {
    a + b
}

/// Relies on `std::ops::Sub::sub` for `T`.
#[verifier::external_body]
pub(crate) fn minus<T: Float>(a: T, b: T) -> T {
    a - b
}

/// Relies on `std::ops::Mul::mul` for `T`.
#[verifier::external_body]
pub(crate) fn times<T: Float>(a: T, b: T) -> T {
    a * b
}

/// Relies on `std::ops::Div::div` for `T`.
#[verifier::external_body]
pub(crate) fn quot<T: Float>(a: T, b: T) -> T {
    a / b
}

/// Relies on `std::ops::Neg::neg` for `T`.
#[verifier::external_body]
pub(crate) fn negated<T: Float>(a: T) -> T {
    -a
}

/// Relies on `num_traits::Float::abs`.
#[verifier::external_body]
pub(crate) fn abs_of<T: Float>(a: T) -> T {
    a.abs()
}

/// Relies on `num_traits::Float::sqrt`.
#[verifier::external_body]
pub(crate) fn sqrt_of<T: Float>(a: T) -> T {
    a.sqrt()
}

/// Relies on `num_traits::Float::sin`.
#[verifier::external_body]
pub(crate) fn sin_of<T: Float>(a: T) -> T {
    a.sin()
}

/// Relies on `num_traits::Float::cos`.
#[verifier::external_body]
pub(crate) fn cos_of<T: Float>(a: T) -> T {
    a.cos()
}

/// Relies on `num_traits::Float::ln`.
#[verifier::external_body]
pub(crate) fn ln_of<T: Float>(a: T) -> T {
    a.ln()
}

/// Relies on `num_traits::Float::atan2`.
#[verifier::external_body]
pub(crate) fn atan2_of<T: Float>(y: T, x: T) -> T {
    y.atan2(x)
}

/// Relies on `num_traits::Float::powf`.
#[verifier::external_body]
pub(crate) fn powf_of<T: Float>(a: T, n: T) -> T {
    a.powf(n)
}

/// Relies on `num_traits::Float::nan`.
#[verifier::external_body]
pub(crate) fn nan<T: Float>() -> T {
    T::nan()
}

/// Relies on `num_traits::FloatConst::TAU`: the full turn, 2π.
#[verifier::external_body]
pub(crate) fn tau<T: Float + FloatConst>() -> T {
    T::TAU()
}

/// Relies on `PartialOrd::lt` for `T` (false whenever either side is NaN).
#[verifier::external_body]
pub(crate) fn less<T: Float>(a: T, b: T) -> bool {
    a < b
}

/// Relies on `PartialOrd::le` for `T` (false whenever either side is NaN).
#[verifier::external_body]
pub(crate) fn less_eq<T: Float>(a: T, b: T) -> bool {
    a <= b
}

/// Relies on `num_traits::NumCast::from`: `None` where `T` cannot hold `n`.
#[verifier::external_body]
pub(crate) fn from_count<T: Float>(n: usize) -> Option<T> {
    T::from(n)
}

/// Relies on `num_traits::ToPrimitive::to_usize`: the value truncated toward
/// zero, or `None` where that is no `usize` (NaN, infinite or out of range).
#[verifier::external_body]
pub(crate) fn to_index<T: Float>(a: T) -> Option<usize> {
    a.to_usize()
}

/// Relies on `rand::Rng::random`, which samples `StandardUniform`: for a
/// float a variate uniform on `[0, 1)`, for an integer one uniform over all its
/// values. It advances `rng`.
#[verifier::external_body]
pub(crate) fn standard_draw<T>(rng: &mut rand::rngs::StdRng) -> T
    where rand::distr::StandardUniform: rand::distr::Distribution<T>,
{
    rand::Rng::random::<T>(rng)
}

/// Relies on `rand::distr::Uniform::new` and `Rng::sample`: a variate uniform
/// on `[lo, hi)`, or `None` where `Uniform::new` refuses the range (empty, or
/// not finite). It advances `rng` only when it draws.
#[verifier::external_body]
pub(crate) fn range_draw<T: SampleUniform>(rng: &mut rand::rngs::StdRng, lo: T, hi: T) -> Option<T> {
    match rand::distr::Uniform::new(lo, hi) {
        Ok(u) => Some(rand::Rng::sample(rng, u)),
        Err(_) => None,
    }
}

/// `n` as a value of `T`; NaN where `T` cannot hold it, so that every
/// comparison against it fails.
pub(crate) fn count_or_nan<T: Float>(n: usize) -> T {
    match from_count(n) {
        Some(v) => v,
        None => nan(),
    }
}

/// The value two, as `1 + 1`.
pub(crate) fn two<T: Float>() -> T {
    plus(one(), one())
}

} // verus!
