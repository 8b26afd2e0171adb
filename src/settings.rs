//! The configuration of one render, checked once when it is built.
use num_traits::Float;
use vstd::prelude::*;

use crate::attractor::Attractor;
use crate::generator::Generator;
use crate::scalar::{less, zero};

verus! {

/// Why a configuration was refused.
#[derive(Debug, Clone, Copy, PartialEq, Eq, Structural)]
pub enum ConfigurationError {
    /// The scale is not greater than zero (or is NaN).
    NonPositiveScale,
    /// A dimension of the resolution is zero.
    EmptyResolution,
    /// The sample count is zero.
    NoSamples,
    /// The group count is zero.
    NoGroups,
    /// The iteration count is zero.
    NoIterations,
}

/// The outcome of checking a configuration, given whether its scale is
/// positive: the first rule broken, in the order scale, resolution, samples,
/// groups, iterations.
pub open spec fn config_check(
    scale_positive: bool,
    resolution: [usize; 2],
    num_samples: usize,
    num_groups: usize,
    max_iter: usize,
) -> Result<(), ConfigurationError> {
    if !scale_positive {
        Err(ConfigurationError::NonPositiveScale)
    } else if resolution[0] == 0 || resolution[1] == 0 {
        Err(ConfigurationError::EmptyResolution)
    } else if num_samples == 0 {
        Err(ConfigurationError::NoSamples)
    } else if num_groups == 0 {
        Err(ConfigurationError::NoGroups)
    } else if max_iter == 0 {
        Err(ConfigurationError::NoIterations)
    } else {
        Ok(())
    }
}

/// Checks the counts of a configuration; `scale_positive` tells whether its
/// scale is greater than zero.
pub fn check_config(
    scale_positive: bool,
    resolution: [usize; 2],
    num_samples: usize,
    num_groups: usize,
    max_iter: usize,
) -> (r: Result<(), ConfigurationError>)
    ensures
        r == config_check(scale_positive, resolution, num_samples, num_groups, max_iter),
{
    if !scale_positive {
        Err(ConfigurationError::NonPositiveScale)
    } else if resolution[0] == 0 || resolution[1] == 0 {
        Err(ConfigurationError::EmptyResolution)
    } else if num_samples == 0 {
        Err(ConfigurationError::NoSamples)
    } else if num_groups == 0 {
        Err(ConfigurationError::NoGroups)
    } else if max_iter == 0 {
        Err(ConfigurationError::NoIterations)
    } else {
        Ok(())
    }
}

/// Everything one render needs.
#[derive(Debug, Clone, Copy)]
pub struct Settings<T> {
    /// The map whose orbits are traced.
    pub attractor: Attractor<T>,
    /// The distribution of starting points.
    pub generator: Generator<T>,
    /// The size of the grid, `[rows, cols]` (height, width).
    pub resolution: [usize; 2],
    /// The centre of the viewport, `[re, im]`.
    pub offset: [T; 2],
    /// The height of the viewport; its width follows from the aspect ratio.
    pub scale: T,
    /// The number of starting points to draw.
    pub num_samples: usize,
    /// The number of groups the samples are split into and run in parallel.
    pub num_groups: usize,
    /// The number of counted iterations per sample.
    pub max_iter: usize,
    /// The number of iterations run before counting starts.
    pub warmup: usize,
}

impl<T> Settings<T> {
    /// The counts of the configuration obey the rules of `config_check`.
    pub open spec fn valid(&self) -> bool {
        &&& self.resolution[0] > 0
        &&& self.resolution[1] > 0
        &&& self.num_samples > 0
        &&& self.num_groups > 0
        &&& self.max_iter > 0
    }

    /// The number of samples each group runs: `⌊num_samples / num_groups⌋`.
    pub open spec fn per_group(&self) -> nat {
        (self.num_samples / self.num_groups) as nat
    }

    /// The number of samples a render runs in all; the remainder of
    /// `num_samples` by `num_groups` is dropped.
    pub open spec fn samples_processed(&self) -> nat {
        self.per_group() * (self.num_groups as nat)
    }

    /// The number of samples each group runs.
    pub fn samples_per_group(&self) -> (r: usize)
        requires
            self.num_groups > 0,
        ensures
            r == self.per_group(),
    {
        self.num_samples / self.num_groups
    }
}

/// A render runs all samples but the remainder of `num_samples` by
/// `num_groups`: fewer than `num_groups` samples are dropped, and none where
/// the groups divide the samples evenly.
pub proof fn lemma_samples_processed<T>(settings: &Settings<T>)
    requires
        settings.num_groups > 0,
    ensures
        settings.samples_processed() == settings.num_samples - settings.num_samples % settings.num_groups,
        settings.samples_processed() <= settings.num_samples,
        settings.num_samples - settings.samples_processed() < settings.num_groups,
        settings.num_samples % settings.num_groups == 0 ==> settings.samples_processed() == settings.num_samples,
{
    let n = settings.num_samples as int;
    let g = settings.num_groups as int;
    vstd::arithmetic::div_mod::lemma_fundamental_div_mod(n, g);
    vstd::arithmetic::div_mod::lemma_mod_bound(n, g);
    assert((n / g) * g == g * (n / g)) by (nonlinear_arith);
}

impl<T: Float> Settings<T> {
    /// Builds a configuration, refusing one whose scale is not positive or
    /// whose resolution, sample count, group count or iteration count is zero.
    pub fn new(
        attractor: Attractor<T>,
        generator: Generator<T>,
        offset: [T; 2],
        scale: T,
        resolution: [usize; 2],
        num_samples: usize,
        num_groups: usize,
        max_iter: usize,
        warmup: usize,
    ) -> (r: Result<Self, ConfigurationError>)
        ensures
            r matches Ok(s) ==> {
                &&& s.valid()
                &&& s.attractor == attractor
                &&& s.generator == generator
                &&& s.offset == offset
                &&& s.scale == scale
                &&& s.resolution == resolution
                &&& s.num_samples == num_samples
                &&& s.num_groups == num_groups
                &&& s.max_iter == max_iter
                &&& s.warmup == warmup
            },
            r matches Err(e) ==> e == ConfigurationError::NonPositiveScale || Err::<(), ConfigurationError>(e) == config_check(
                true,
                resolution,
                num_samples,
                num_groups,
                max_iter,
            ),
            config_check(true, resolution, num_samples, num_groups, max_iter) is Err ==> r is Err,
    {
        let scale_positive = less(zero(), scale);
        match check_config(scale_positive, resolution, num_samples, num_groups, max_iter) {
            Ok(()) => Ok(
                Settings {
                    attractor,
                    generator,
                    resolution,
                    offset,
                    scale,
                    num_samples,
                    num_groups,
                    max_iter,
                    warmup,
                },
            ),
            Err(e) => Err(e),
        }
    }
}

} // verus!
