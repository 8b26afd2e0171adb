//! Distributions of starting points.
//!
//! Each generator draws its variates from a random source, which is the only
//! state it touches, and turns them into a point of the plane.
use num_traits::{Float, FloatConst};
use rand::distr::uniform::SampleUniform;
use rand::distr::{Distribution, StandardUniform};
use rand::rngs::StdRng;
use vstd::prelude::*;

use crate::complex::Complex;
use crate::scalar::{
    cos_of, ln_of, negated, range_draw, sin_of, sqrt_of, standard_draw, tau, times, two, zero,
};

verus! {

/// Uniform over the box `centre ± half_size`, componentwise.
#[derive(Debug, Clone, Copy)]
pub struct Aabb<T> {
    pub centre: Complex<T>,
    pub half_size: Complex<T>,
}

/// Uniform over the disk of `radius` about `centre`.
#[derive(Debug, Clone, Copy)]
pub struct Circle<T> {
    pub centre: Complex<T>,
    pub radius: T,
}

/// Normal about `centre`, with standard deviation `std_dev` on each axis.
#[derive(Debug, Clone, Copy)]
pub struct Gaussian<T> {
    pub centre: Complex<T>,
    pub std_dev: T,
}

/// Any one of the distributions, chosen once per render.
#[derive(Debug, Clone, Copy)]
#[non_exhaustive]
pub enum Generator<T> {
    Aabb { centre: Complex<T>, half_size: Complex<T> },
    Circle { centre: Complex<T>, radius: T },
    Gaussian { centre: Complex<T>, std_dev: T },
}

/// The point at distance `√u · radius` from `centre`, at angle `theta`; the
/// square root makes the density uniform in area when `u` is uniform on
/// `[0, 1)`.
pub fn disk_point<T: Float>(centre: Complex<T>, radius: T, theta: T, u: T) -> (r: Complex<T>) {
    let rho = times(sqrt_of(u), radius);
    centre.add(Complex::new(times(rho, cos_of(theta)), times(rho, sin_of(theta))))
}

/// The Box–Muller transform: distance `√(−2·ln u1) · std_dev`, angle `τ·u2`.
pub fn gaussian_point<T: Float + FloatConst>(centre: Complex<T>, std_dev: T, u1: T, u2: T) -> (r: Complex<T>) {
    let r = times(sqrt_of(times(negated(two()), ln_of(u1))), std_dev);
    let theta = times(tau(), u2);
    centre.add(Complex::new(times(r, cos_of(theta)), times(r, sin_of(theta))))
}

/// A point uniform over `centre ± half_size`, or `None` where a side of the
/// box is empty (a half size that is not positive, or not finite).
fn box_sample<T: Float + SampleUniform>(centre: Complex<T>, half_size: Complex<T>, rng: &mut StdRng) -> (r: Option<Complex<T>>) {
    match range_draw(rng, negated(half_size.re), half_size.re) {
        Some(re) => match range_draw(rng, negated(half_size.im), half_size.im) {
            Some(im) => Some(centre.add(Complex::new(re, im))),
            None => None,
        },
        None => None,
    }
}

/// A point uniform over the disk, or `None` where the angle cannot be drawn
/// (a type whose `τ` is not finite).
fn disk_sample<T: Float + FloatConst + SampleUniform>(centre: Complex<T>, radius: T, rng: &mut StdRng) -> (r: Option<Complex<T>>)
    where StandardUniform: Distribution<T>,
{
    match range_draw(rng, zero(), tau()) {
        Some(theta) => {
            let u = standard_draw(rng);
            Some(disk_point(centre, radius, theta, u))
        },
        None => None,
    }
}

/// A normally distributed point.
fn gaussian_sample<T: Float + FloatConst>(centre: Complex<T>, std_dev: T, rng: &mut StdRng) -> (r: Complex<T>)
    where StandardUniform: Distribution<T>,
{
    let u1 = standard_draw(rng);
    let u2 = standard_draw(rng);
    gaussian_point(centre, std_dev, u1, u2)
}

impl<T> Aabb<T> {
    pub fn new(centre: Complex<T>, half_size: Complex<T>) -> (r: Self)
        ensures
            r.centre == centre && r.half_size == half_size,
    {
        Aabb { centre, half_size }
    }
}

impl<T> Circle<T> {
    pub fn new(centre: Complex<T>, radius: T) -> (r: Self)
        ensures
            r.centre == centre && r.radius == radius,
    {
        Circle { centre, radius }
    }
}

impl<T> Gaussian<T> {
    pub fn new(centre: Complex<T>, std_dev: T) -> (r: Self)
        ensures
            r.centre == centre && r.std_dev == std_dev,
    {
        Gaussian { centre, std_dev }
    }
}

impl<T: Float + SampleUniform> Aabb<T> {
    /// A point uniform over the box; `None` where a side is empty.
    pub fn sample(&self, rng: &mut StdRng) -> (r: Option<Complex<T>>) {
        box_sample(self.centre, self.half_size, rng)
    }
}

impl<T: Float + FloatConst + SampleUniform> Circle<T> {
    /// A point uniform over the disk.
    pub fn sample(&self, rng: &mut StdRng) -> (r: Option<Complex<T>>)
        where StandardUniform: Distribution<T>,
    {
        disk_sample(self.centre, self.radius, rng)
    }
}

impl<T: Float + FloatConst> Gaussian<T> {
    /// A normally distributed point.
    pub fn sample(&self, rng: &mut StdRng) -> (r: Complex<T>)
        where StandardUniform: Distribution<T>,
    {
        gaussian_sample(self.centre, self.std_dev, rng)
    }
}

impl<T: Float + FloatConst + SampleUniform> Generator<T> {
    /// Draws a starting point with `rng`; `None` where rand refuses a range
    /// (a box with a side that is not positive). A Gaussian always gives one.
    pub fn sample(&self, rng: &mut StdRng) -> (r: Option<Complex<T>>)
        where StandardUniform: Distribution<T>,
        ensures
            *self is Gaussian ==> r is Some,
    {
        match *self {
            Generator::Aabb { centre, half_size } => box_sample(centre, half_size, rng),
            Generator::Circle { centre, radius } => disk_sample(centre, radius, rng),
            Generator::Gaussian { centre, std_dev } => Some(gaussian_sample(centre, std_dev, rng)),
        }
    }
}

} // verus!
