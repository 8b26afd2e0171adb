//! Points of the plane, written as complex numbers.
use num_traits::Float;
use vstd::prelude::*;

use crate::scalar::{
    abs_of, atan2_of, cos_of, minus, negated, one, plus, powf_of, quot, sin_of, sqrt_of, times,
    zero,
};

verus! {

/// A point `(re, im)` of the plane; the real part `re` is the horizontal axis.
#[derive(Debug, Copy, Clone, PartialEq, Eq)]
#[non_exhaustive]
pub struct Complex<T> {
    pub re: T,
    pub im: T,
}

impl<T> Complex<T> {
    pub fn new(re: T, im: T) -> (r: Self)
        ensures
            r.re == re,
            r.im == im,
    {
        Complex { re, im }
    }
}

impl<T: Float> Complex<T> {
    /// `-z`.
    pub fn neg(self) -> (r: Self) {
        Complex::new(negated(self.re), negated(self.im))
    }

    /// `z + w`.
    pub fn add(self, rhs: Self) -> (r: Self) {
        Complex::new(plus(self.re, rhs.re), plus(self.im, rhs.im))
    }

    /// `z - w`.
    pub fn sub(self, rhs: Self) -> (r: Self) {
        Complex::new(minus(self.re, rhs.re), minus(self.im, rhs.im))
    }

    /// `z · w`.
    pub fn mul(self, rhs: Self) -> (r: Self) {
        Complex::new(
            minus(times(self.re, rhs.re), times(self.im, rhs.im)),
            plus(times(self.re, rhs.im), times(self.im, rhs.re)),
        )
    }

    /// `z / w`, as `z · conj(w) / |w|²`.
    pub fn div(self, rhs: Self) -> (r: Self) {
        let d = rhs.norm_sqr();
        Complex::new(
            quot(plus(times(self.re, rhs.re), times(self.im, rhs.im)), d),
            quot(minus(times(self.im, rhs.re), times(self.re, rhs.im)), d),
        )
    }

    /// Both parts divided by `scalar`.
    pub fn div_scalar(self, scalar: T) -> (r: Self) {
        Complex::new(quot(self.re, scalar), quot(self.im, scalar))
    }

    /// `|z|²`.
    pub fn norm_sqr(&self) -> (r: T) {
        plus(times(self.re, self.re), times(self.im, self.im))
    }

    /// `|z|`.
    pub fn norm(&self) -> (r: T) {
        sqrt_of(self.norm_sqr())
    }

    /// `|z|`, taking `z` by value.
    pub fn abs(self) -> (r: T) {
        sqrt_of(self.norm_sqr())
    }

    /// `z^n` for a real exponent, through the polar form.
    pub fn powf(self, n: T) -> (r: Self) {
        let r = self.norm();
        let theta = atan2_of(self.im, self.re);
        let new_r = powf_of(r, n);
        let new_theta = times(theta, n);
        Complex::new(times(new_r, cos_of(new_theta)), times(new_r, sin_of(new_theta)))
    }

    /// `z^n` by repeated multiplication: `1` for `n = 0`, else `n - 1` products.
    pub fn powi(self, n: u32) -> (r: Self)
        ensures
            n == 1 ==> r == self,
    {
        if n == 0 {
            return Complex::new(one(), zero());
        }
        let mut result = self;
        let mut k: u32 = 1;
        while k < n
            invariant
                1 <= k <= n,
                k == 1 ==> result == self,
            decreases n - k,
        {
            result = result.mul(self);
            k = k + 1;
        }
        result
    }

    /// `1 / z`, as `conj(z) / |z|²`.
    pub fn inv(self) -> (r: Self) {
        let norm = self.norm_sqr();
        Complex::new(quot(self.re, norm), quot(negated(self.im), norm))
    }
}

} // verus!
