//! Tracing orbits into density grids, one group at a time and in parallel.
use num_traits::{Float, FloatConst};
use rand::distr::uniform::SampleUniform;
use rand::distr::{Distribution, StandardUniform};
use rand::rngs::StdRng;
use rayon::iter::{IntoParallelIterator, ParallelIterator};
use std::sync::atomic::{AtomicU64, Ordering};
use vstd::prelude::*;

use crate::attractor::Attractor;
use crate::complex::Complex;
use crate::grid::{cell_sum, grid_fits, increment, lemma_totals_sum_bound, saturated, sum_grids, Grid};
use crate::mapper::PixelMapper;
use crate::scalar::standard_draw;
use crate::settings::Settings;

verus! {

/// Why a render could not run.
#[derive(Debug, Clone, Copy, PartialEq, Eq, Structural)]
pub enum RenderError {
    /// No seed was given and the operating system had no entropy to seed the
    /// random sources with.
    NoEntropy,
}

/// What every group grid of `settings` satisfies: the configured shape, and
/// at most `max_iter` hits for each of the group's samples.
pub open spec fn group_grid<T>(settings: &Settings<T>, g: Grid) -> bool {
    &&& g.wf()
    &&& g.rows() == settings.resolution[0]
    &&& g.cols() == settings.resolution[1]
    &&& g.total() <= settings.per_group() * settings.max_iter
}

/// How much progress a group of `n` samples has reported once `done` of them
/// have run: whole hundreds while it runs, and all `n` once it is through.
pub open spec fn progress_reported(done: nat, n: nat) -> nat {
    if done >= n {
        n
    } else {
        (done / 100 * 100) as nat
    }
}

/// The sum of the amounts reported after each of the first `k` samples.
pub open spec fn progress_total(k: nat, n: nat) -> int
    decreases k,
{
    if k == 0 {
        0
    } else {
        progress_total((k - 1) as nat, n) + progress_reported(k, n) - progress_reported((k - 1) as nat, n)
    }
}

/// The amounts a group reports add up to its number of samples, whatever that
/// number is.
pub proof fn lemma_progress_adds_up(n: nat)
    ensures
        progress_total(n, n) == n,
{
    lemma_progress_telescopes(n, n);
}

/// After `k` samples the amounts reported add up to `progress_reported(k, n)`.
pub proof fn lemma_progress_telescopes(k: nat, n: nat)
    ensures
        progress_total(k, n) == progress_reported(k, n),
    decreases k,
{
    if k > 0 {
        lemma_progress_telescopes((k - 1) as nat, n);
    }
}

/// The amount to report once sample `done` (counted from one) of `n` has run.
pub fn progress_step(done: usize, n: usize) -> (r: u64)
    requires
        1 <= done <= n,
    ensures
        r == progress_reported(done as nat, n as nat) - progress_reported((done - 1) as nat, n as nat),
{
    let before = (done - 1) / 100 * 100;
    if done == n {
        (n - before) as u64
    } else {
        (done / 100 * 100 - before) as u64
    }
}

/// Relies on `rand::SeedableRng::seed_from_u64`: a generator whose stream is
/// fixed by `seed`.
#[verifier::external_body]
fn seeded_rng(seed: u64) -> StdRng {
    rand::SeedableRng::seed_from_u64(seed)
}

/// Relies on `rand::SeedableRng::try_from_os_rng`: a generator seeded by the
/// operating system, or `None` where the system has no entropy to give.
#[verifier::external_body]
fn os_rng() -> Option<StdRng> {
    match rand::SeedableRng::try_from_os_rng() {
        Ok(rng) => Some(rng),
        Err(_) => None,
    }
}

/// Traces one orbit from `start`: `warmup` steps that are not counted, then
/// `max_iter` steps, each adding a hit to the pixel it lands on, if any.
pub fn render_path<T: Float>(
    attractor: &Attractor<T>,
    mapper: &PixelMapper<T>,
    start: Complex<T>,
    max_iter: usize,
    warmup: usize,
    counts: &mut Grid,
)
    requires
        old(counts).wf(),
        old(counts).rows() == mapper.rows,
        old(counts).cols() == mapper.cols,
    ensures
        final(counts).wf(),
        final(counts).rows() == old(counts).rows(),
        final(counts).cols() == old(counts).cols(),
        forall|k: int| 0 <= k < final(counts).cells().len() ==> #[trigger] final(counts).cells()[k] >= old(counts).cells()[k],
        old(counts).total() <= final(counts).total() <= old(counts).total() + max_iter,
{
    let mut pos = start;
    let mut i: usize = 0;
    while i < warmup
        invariant
            i <= warmup,
        decreases warmup - i,
    {
        pos = attractor.iterate(pos);
        i = i + 1;
    }
    let ghost start_total = counts.total();
    let ghost start_cells = counts.cells();
    let mut j: usize = 0;
    while j < max_iter
        invariant
            j <= max_iter,
            counts.wf(),
            counts.rows() == mapper.rows,
            counts.cols() == mapper.cols,
            start_total <= counts.total() <= start_total + j,
            counts.cells().len() == start_cells.len(),
            forall|k: int| 0 <= k < counts.cells().len() ==> #[trigger] counts.cells()[k] >= start_cells[k],
        decreases max_iter - j,
    {
        pos = attractor.iterate(pos);
        match mapper.map(pos) {
            Some(ix) => increment(counts, ix[0], ix[1]),
            None => {},
        }
        j = j + 1;
    }
}

/// Runs the samples of one group in sequence, each from a starting point drawn
/// with `rng`, into a grid of the group's own; a sample that the generator
/// cannot draw is skipped. It adds to `progress` as
/// `progress_step` says: a hundred after each full hundred samples, the rest
/// at the end.
pub fn render_group<T: Float + FloatConst + SampleUniform>(settings: &Settings<T>, rng: &mut StdRng, progress: &AtomicU64) -> (r: Grid)
    where StandardUniform: Distribution<T>,
    requires
        settings.valid(),
        grid_fits(settings.resolution[0] as nat, settings.resolution[1] as nat),
    ensures
        group_grid(settings, r),
{
    let mapper = PixelMapper::new(settings.offset, settings.scale, settings.resolution);
    let mut counts = Grid::empty(settings.resolution[0], settings.resolution[1]);
    let n = settings.samples_per_group();
    let mut i: usize = 0;
    while i < n
        invariant
            settings.valid(),
            n == settings.per_group(),
            i <= n,
            mapper.rows == settings.resolution[0],
            mapper.cols == settings.resolution[1],
            counts.wf(),
            counts.rows() == settings.resolution[0],
            counts.cols() == settings.resolution[1],
            counts.total() <= i * settings.max_iter,
        decreases n - i,
    {
        match settings.generator.sample(rng) {
            Some(start) => render_path(
                &settings.attractor,
                &mapper,
                start,
                settings.max_iter,
                settings.warmup,
                &mut counts,
            ),
            None => {},
        }
        let step = progress_step(i + 1, n);
        if step > 0 {
            progress.fetch_add(step, Ordering::Relaxed);
        }
        proof {
            assert((i + 1) * settings.max_iter == i * settings.max_iter + settings.max_iter) by (nonlinear_arith);
        }
        i = i + 1;
    }
    counts
}

/// Group `group` of a render: its random source is seeded from `seed` and the
/// group's index.
pub fn render_indexed_group<T: Float + FloatConst + SampleUniform>(
    settings: &Settings<T>,
    seed: u64,
    group: usize,
    progress: &AtomicU64,
) -> (r: Grid)
    where StandardUniform: Distribution<T>,
    requires
        settings.valid(),
        grid_fits(settings.resolution[0] as nat, settings.resolution[1] as nat),
    ensures
        group_grid(settings, r),
{
    let mut rng = seeded_rng(seed.wrapping_add(group as u64));
    render_group(settings, &mut rng, progress)
}

/// Relies on rayon's `into_par_iter` over `0..num_groups`, `map` and
/// `collect` into a `Vec`: one result for each index, in index order. Each
/// result is what `render_indexed_group` returned for its index.
#[verifier::external_body]
fn render_groups_parallel<T: Float + FloatConst + SampleUniform + Send + Sync>(
    settings: &Settings<T>,
    seed: u64,
    progress: &AtomicU64,
) -> (r: Vec<Grid>)
    where StandardUniform: Distribution<T>,
    requires
        settings.valid(),
        grid_fits(settings.resolution[0] as nat, settings.resolution[1] as nat),
    ensures
        r.len() == settings.num_groups,
        forall|i: int| 0 <= i < r.len() ==> group_grid(settings, #[trigger] r[i]),
{
    (0..settings.num_groups).into_par_iter().map(|g| render_indexed_group(settings, seed, g, progress)).collect()
}

/// The reduction of a render: `g` is the counter-by-counter sum, capped at
/// `u32::MAX`, of `num_groups` group grids, each of the configured shape with at
/// most `max_iter` hits for each of the group's samples.
pub open spec fn reduced<T>(settings: &Settings<T>, g: Grid) -> bool {
    exists|groups: Seq<Grid>|
        {
            &&& groups.len() == settings.num_groups
            &&& forall|i: int| 0 <= i < groups.len() ==> group_grid(settings, #[trigger] groups[i])
            &&& forall|k: int| 0 <= k < g.cells().len() ==> #[trigger] g.cells()[k] as int == saturated(cell_sum(groups, k))
        }
}

/// Renders with `num_groups` groups run in parallel and sums their grids with
/// `sum_grids`. With `Some(seed)` the outcome is a function of the settings and
/// the seed, and the render always runs; with `None` the seed comes from the
/// operating system, and the render fails where it has none to give. Each
/// group adds its samples to `progress` as it goes.
pub fn render_seeded<T: Float + FloatConst + SampleUniform + Send + Sync>(
    settings: &Settings<T>,
    seed: Option<u64>,
    progress: &AtomicU64,
) -> (r: Result<Grid, RenderError>)
    where StandardUniform: Distribution<T>,
    requires
        settings.valid(),
        grid_fits(settings.resolution[0] as nat, settings.resolution[1] as nat),
    ensures
        seed is Some ==> r is Ok,
        r matches Ok(g) ==> rendered(settings, g) && reduced(settings, g),
{
    let base: u64 = match seed {
        Some(s) => s,
        None => match os_rng() {
            Some(mut rng) => standard_draw::<u64>(&mut rng),
            None => return Err(RenderError::NoEntropy),
        },
    };
    let groups = render_groups_parallel(settings, base, progress);
    let total = sum_grids(&groups, settings.resolution[0], settings.resolution[1]);
    proof {
        let per = settings.per_group() * settings.max_iter;
        lemma_totals_sum_bound(groups@, per);
        assert(settings.samples_processed() * settings.max_iter == settings.num_groups * per) by (nonlinear_arith)
            requires
                per == settings.per_group() * settings.max_iter,
                settings.samples_processed() == settings.per_group() * settings.num_groups,
        ;
        assert forall|k: int| 0 <= k < total.cells().len() implies #[trigger] total.cells()[k]
            <= settings.samples_processed() * settings.max_iter by {
            crate::grid::lemma_elem_le_sum(total.cells(), k);
        }
        assert(forall|i: int| 0 <= i < groups@.len() ==> group_grid(settings, #[trigger] groups@[i]));
        assert(reduced(settings, total));
    }
    Ok(total)
}

/// What a render of `settings` returns: a grid of the configured shape whose
/// total, and so each counter, is at most `max_iter` hits for each sample
/// processed.
pub open spec fn rendered<T>(settings: &Settings<T>, g: Grid) -> bool {
    &&& g.wf()
    &&& g.rows() == settings.resolution[0]
    &&& g.cols() == settings.resolution[1]
    &&& g.total() <= settings.samples_processed() * settings.max_iter
    &&& forall|k: int| 0 <= k < g.cells().len() ==> #[trigger] g.cells()[k] <= settings.samples_processed() * settings.max_iter
}

/// Renders with `num_groups` groups run in parallel, their random sources
/// seeded by the operating system, and sums their grids.
pub fn render<T: Float + FloatConst + SampleUniform + Send + Sync>(settings: &Settings<T>) -> (r: Result<Grid, RenderError>)
    where StandardUniform: Distribution<T>,
    requires
        settings.valid(),
        grid_fits(settings.resolution[0] as nat, settings.resolution[1] as nat),
    ensures
        r matches Ok(g) ==> rendered(settings, g) && reduced(settings, g),
{
    let progress = AtomicU64::new(0);
    render_seeded(settings, None, &progress)
}

} // verus!
