//! The iterated maps of the plane whose orbit densities are rendered.
//!
//! Each map is a small value of coefficients with a pure `iterate`. The closed
//! enum [`Attractor`] holds any one of them, so that the inner loop of the
//! renderer dispatches by a `match` rather than through a virtual call.
use num_traits::Float;
use vstd::prelude::*;

use crate::complex::Complex;
use crate::scalar::{abs_of, cos_of, minus, negated, one, plus, quot, sin_of, times, two};

verus! {

/// The Clifford attractor:
/// `x' = sin(a·y) + c·cos(a·x)`, `y' = sin(b·x) + d·cos(b·y)`.
#[derive(Debug, Clone, Copy)]
pub struct Clifford<T> {
    pub a: T,
    pub b: T,
    pub c: T,
    pub d: T,
}

/// The De Jong attractor:
/// `x' = a·sin(y) − b·cos(x)`, `y' = c·sin(x) − d·cos(y)`.
#[derive(Debug, Clone, Copy)]
pub struct DeJong<T> {
    pub a: T,
    pub b: T,
    pub c: T,
    pub d: T,
}

/// The Hénon map: `x' = 1 − a·x² + y`, `y' = b·x`.
#[derive(Debug, Clone, Copy)]
pub struct Henon<T> {
    pub a: T,
    pub b: T,
}

/// The Tinkerbell map:
/// `x' = x² − y² + a·x + b·y`, `y' = 2·x·y + c·x + d·y`.
#[derive(Debug, Clone, Copy)]
pub struct Tinkerbell<T> {
    pub a: T,
    pub b: T,
    pub c: T,
    pub d: T,
}

/// The Duffing map: `x' = y`, `y' = −b·x + a·y − y³`.
#[derive(Debug, Clone, Copy)]
pub struct Duffing<T> {
    pub a: T,
    pub b: T,
}

/// The Chirikov standard map on (position, momentum), without the reduction
/// modulo 2π: `p' = p + k·sin(x)`, `x' = x + p'`.
#[derive(Debug, Clone, Copy)]
pub struct Chirikov<T> {
    pub k: T,
}

/// The Ikeda map: with `t = 0.4 − 6 / (1 + x² + y²)`,
/// `x' = 1 + u·(x·cos t − y·sin t)`, `y' = u·(x·sin t + y·cos t)`.
#[derive(Debug, Clone, Copy)]
pub struct Ikeda<T> {
    pub u: T,
}

/// The Gingerbreadman map: `x' = 1 − y + |x|`, `y' = x`. It has no
/// coefficients; `T` is the coordinate type it is meant for.
#[derive(Debug, Copy)]
pub struct Gingerbreadman<T> {
    pub marker: core::marker::PhantomData<T>,
}

impl<T> Clone for Gingerbreadman<T> {
    fn clone(&self) -> (r: Self) {
        Gingerbreadman { marker: core::marker::PhantomData }
    }
}

impl<T> Clifford<T> {
    pub fn new(a: T, b: T, c: T, d: T) -> (r: Self)
        ensures
            r.a == a && r.b == b && r.c == c && r.d == d,
    {
        Clifford { a, b, c, d }
    }
}

impl<T> DeJong<T> {
    pub fn new(a: T, b: T, c: T, d: T) -> (r: Self)
        ensures
            r.a == a && r.b == b && r.c == c && r.d == d,
    {
        DeJong { a, b, c, d }
    }
}

impl<T> Henon<T> {
    pub fn new(a: T, b: T) -> (r: Self)
        ensures
            r.a == a && r.b == b,
    {
        Henon { a, b }
    }
}

impl<T> Tinkerbell<T> {
    pub fn new(a: T, b: T, c: T, d: T) -> (r: Self)
        ensures
            r.a == a && r.b == b && r.c == c && r.d == d,
    {
        Tinkerbell { a, b, c, d }
    }
}

impl<T> Duffing<T> {
    pub fn new(a: T, b: T) -> (r: Self)
        ensures
            r.a == a && r.b == b,
    {
        Duffing { a, b }
    }
}

impl<T> Chirikov<T> {
    pub fn new(k: T) -> (r: Self)
        ensures
            r.k == k,
    {
        Chirikov { k }
    }
}

impl<T> Ikeda<T> {
    pub fn new(u: T) -> (r: Self)
        ensures
            r.u == u,
    {
        Ikeda { u }
    }
}

impl<T> Gingerbreadman<T> {
    pub fn new() -> (r: Self) {
        Gingerbreadman { marker: core::marker::PhantomData }
    }
}

impl<T: Float> Clifford<T> {
    pub fn iterate(&self, p: Complex<T>) -> (r: Complex<T>) {
        let (x, y) = (p.re, p.im);
        Complex::new(
            plus(sin_of(times(self.a, y)), times(self.c, cos_of(times(self.a, x)))),
            plus(sin_of(times(self.b, x)), times(self.d, cos_of(times(self.b, y)))),
        )
    }
}

impl<T: Float> DeJong<T> {
    pub fn iterate(&self, p: Complex<T>) -> (r: Complex<T>) {
        let (x, y) = (p.re, p.im);
        Complex::new(
            minus(times(self.a, sin_of(y)), times(self.b, cos_of(x))),
            minus(times(self.c, sin_of(x)), times(self.d, cos_of(y))),
        )
    }
}

impl<T: Float> Henon<T> {
    pub fn iterate(&self, p: Complex<T>) -> (r: Complex<T>) {
        let (x, y) = (p.re, p.im);
        Complex::new(plus(minus(one(), times(times(self.a, x), x)), y), times(self.b, x))
    }
}

impl<T: Float> Tinkerbell<T> {
    pub fn iterate(&self, p: Complex<T>) -> (r: Complex<T>) {
        let (x, y) = (p.re, p.im);
        let re = plus(
            plus(minus(times(x, x), times(y, y)), times(self.a, x)),
            times(self.b, y),
        );
        let im = plus(plus(times(times(two(), x), y), times(self.c, x)), times(self.d, y));
        Complex::new(re, im)
    }
}

impl<T: Float> Duffing<T> {
    /// The new `x` is the old `y`, as it stands.
    pub fn iterate(&self, p: Complex<T>) -> (r: Complex<T>)
        ensures
            r.re == p.im,
    {
        let (x, y) = (p.re, p.im);
        let cube = times(times(y, y), y);
        Complex::new(y, minus(plus(times(negated(self.b), x), times(self.a, y)), cube))
    }
}

impl<T: Float> Chirikov<T> {
    pub fn iterate(&self, p: Complex<T>) -> (r: Complex<T>) {
        let x = p.re;
        let momentum = p.im;
        let p_new = plus(momentum, times(self.k, sin_of(x)));
        let x_new = plus(x, p_new);
        Complex::new(x_new, p_new)
    }
}

impl<T: Float> Ikeda<T> {
    pub fn iterate(&self, p: Complex<T>) -> (r: Complex<T>) {
        let (x, y) = (p.re, p.im);
        let two: T = two();
        let five = plus(plus(two, two), one());
        let six = plus(plus(two, two), two);
        let r_squared = plus(times(x, x), times(y, y));
        let t = minus(quot(two, five), quot(six, plus(one(), r_squared)));
        let cos_t = cos_of(t);
        let sin_t = sin_of(t);
        Complex::new(
            plus(one(), times(self.u, minus(times(x, cos_t), times(y, sin_t)))),
            times(self.u, plus(times(x, sin_t), times(y, cos_t))),
        )
    }
}

impl<T: Float> Gingerbreadman<T> {
    /// The new `y` is the old `x`, as it stands.
    pub fn iterate(&self, p: Complex<T>) -> (r: Complex<T>)
        ensures
            r.im == p.re,
    {
        let (x, y) = (p.re, p.im);
        Complex::new(plus(minus(one(), y), abs_of(x)), x)
    }
}

/// Any one of the maps, chosen once per render.
#[derive(Debug, Clone, Copy)]
pub enum Attractor<T> {
    Clifford(Clifford<T>),
    DeJong(DeJong<T>),
    Henon(Henon<T>),
    Tinkerbell(Tinkerbell<T>),
    Duffing(Duffing<T>),
    Chirikov(Chirikov<T>),
    Ikeda(Ikeda<T>),
    Gingerbreadman(Gingerbreadman<T>),
}

impl<T: Float> Attractor<T> {
    /// One step of the chosen map from `p`.
    pub fn iterate(&self, p: Complex<T>) -> (r: Complex<T>)
        ensures
            self is Duffing ==> r.re == p.im,
            self is Gingerbreadman ==> r.im == p.re,
    {
        match self {
            Attractor::Clifford(m) => m.iterate(p),
            Attractor::DeJong(m) => m.iterate(p),
            Attractor::Henon(m) => m.iterate(p),
            Attractor::Tinkerbell(m) => m.iterate(p),
            Attractor::Duffing(m) => m.iterate(p),
            Attractor::Chirikov(m) => m.iterate(p),
            Attractor::Ikeda(m) => m.iterate(p),
            Attractor::Gingerbreadman(m) => m.iterate(p),
        }
    }
}

} // verus!
