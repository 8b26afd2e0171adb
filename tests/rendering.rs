use attract::{
    render, render_group, render_seeded, Attractor, Complex, Generator, Grid, Henon, PixelMapper,
    Settings,
};
use attract::render::progress_step;
use attract::grid::sum_grids;
use attract::render_path;
use rand::rngs::StdRng;
use rand::SeedableRng;
use std::sync::atomic::{AtomicU64, Ordering};

fn henon_settings(num_samples: usize, num_groups: usize, resolution: [usize; 2], scale: f64) -> Settings<f64> {
    Settings::new(
        Attractor::Henon(Henon::new(1.4, 0.3)),
        Generator::Circle { centre: Complex::new(0.0, 0.0), radius: 0.1 },
        [0.0, 0.0],
        scale,
        resolution,
        num_samples,
        num_groups,
        50,
        10,
    )
    .unwrap()
}

fn total(g: &Grid) -> u64 {
    g.counts.iter().map(|&v| v as u64).sum()
}

#[test]
fn scenario_henon_disk_ten_by_ten() {
    let s = henon_settings(1000, 4, [10, 10], 2.0);
    let g = render(&s).unwrap();
    assert_eq!(g.counts.dim(), (10, 10));
    let t = total(&g);
    assert!(t > 0);
    assert!(t <= 1000 * 50);
    assert!(g.counts.iter().all(|&v| (v as u64) <= 1000 * 50));
}

#[test]
fn shape_follows_resolution() {
    let s = henon_settings(100, 3, [7, 13], 3.0);
    let g = render(&s).unwrap();
    assert_eq!(g.counts.dim(), (7, 13));
}

#[test]
fn dropped_remainder_bounds_the_total() {
    // 1003 samples over 4 groups: 250 each, 1000 in all
    let mut s = henon_settings(1003, 4, [20, 20], 4.0);
    s.warmup = 0;
    let g = render_seeded(&s, Some(42), &AtomicU64::new(0)).unwrap();
    // the whole Hénon attractor lies in the viewport, so every step after the
    // first few lands in it
    let t = total(&g);
    assert!(t <= 1000 * 50, "{}", t);
    assert!(t > 1000 * 45, "{}", t);
}

#[test]
fn every_step_counts_when_the_orbit_stays_in_view() {
    let s = henon_settings(1003, 4, [20, 20], 4.0);
    let g = render_seeded(&s, Some(1), &AtomicU64::new(0)).unwrap();
    assert_eq!(total(&g), 1000 * 50);
}

#[test]
fn seeded_render_is_reproducible() {
    let s = henon_settings(2000, 4, [16, 16], 3.0);
    let a = render_seeded(&s, Some(7), &AtomicU64::new(0)).unwrap();
    let b = render_seeded(&s, Some(7), &AtomicU64::new(0)).unwrap();
    assert_eq!(a.counts, b.counts);
}

#[test]
fn group_runs_its_share_of_samples() {
    let s = henon_settings(1003, 4, [20, 20], 4.0);
    let mut rng = StdRng::seed_from_u64(3);
    let progress = AtomicU64::new(0);
    let g = render_group(&s, &mut rng, &progress);
    assert_eq!(g.counts.dim(), (20, 20));
    assert_eq!(total(&g), 250 * 50);
    assert_eq!(progress.load(Ordering::Relaxed), 250);
}

#[test]
fn path_counts_at_most_max_iter() {
    let m = PixelMapper::new([0.0f64, 0.0], 4.0, [20, 20]);
    let a = Attractor::Henon(Henon::new(1.4, 0.3));
    let mut g = Grid::empty(20, 20);
    render_path(&a, &m, Complex::new(0.0, 0.0), 30, 5, &mut g);
    assert_eq!(total(&g), 30);
    // a point that leaves the viewport at once is never counted
    let mut g = Grid::empty(20, 20);
    render_path(&a, &m, Complex::new(100.0, 100.0), 30, 0, &mut g);
    assert_eq!(total(&g), 0);
}

#[test]
fn path_never_lowers_a_counter() {
    let m = PixelMapper::new([0.0f64, 0.0], 4.0, [20, 20]);
    let a = Attractor::Henon(Henon::new(1.4, 0.3));
    let mut g = Grid::empty(20, 20);
    render_path(&a, &m, Complex::new(0.0, 0.0), 40, 5, &mut g);
    let before = g.counts.clone();
    render_path(&a, &m, Complex::new(0.1, 0.0), 40, 5, &mut g);
    assert!(before.iter().zip(g.counts.iter()).all(|(b, a)| a >= b));
    assert_eq!(total(&g), 80);
}

#[test]
fn sum_grids_adds_counter_by_counter() {
    let mut a = Grid::empty(2, 3);
    let mut b = Grid::empty(2, 3);
    a.counts[[0, 1]] = 5;
    a.counts[[1, 2]] = u32::MAX - 1;
    b.counts[[0, 1]] = 7;
    b.counts[[1, 0]] = 2;
    b.counts[[1, 2]] = 9;
    let s = sum_grids(&vec![a, b], 2, 3);
    assert_eq!(s.counts.dim(), (2, 3));
    assert_eq!(s.counts[[0, 1]], 12);
    assert_eq!(s.counts[[1, 0]], 2);
    assert_eq!(s.counts[[1, 2]], u32::MAX);
    assert_eq!(s.counts[[0, 0]], 0);
    let none = sum_grids(&vec![], 4, 5);
    assert_eq!(none.counts.dim(), (4, 5));
    assert_eq!(total(&none), 0);
}

#[test]
fn empty_grid_with_a_zero_side() {
    let g = Grid::empty(0, 5);
    assert_eq!(g.counts.dim(), (0, 5));
    assert_eq!(total(&g), 0);
}

#[test]
fn empty_grid_is_zero() {
    let g = Grid::empty(3, 4);
    assert_eq!(g.counts.dim(), (3, 4));
    assert_eq!(total(&g), 0);
}

#[test]
fn group_count_does_not_change_density() {
    let res = [8, 8];
    let one = render_seeded(&henon_settings(40_000, 1, res, 3.0), Some(100), &AtomicU64::new(0)).unwrap();
    let eight = render_seeded(&henon_settings(40_000, 8, res, 3.0), Some(200), &AtomicU64::new(0)).unwrap();
    let (t1, t8) = (total(&one) as f64, total(&eight) as f64);
    assert!(t1 > 0.0 && t8 > 0.0);
    for (a, b) in one.counts.iter().zip(eight.counts.iter()) {
        let (pa, pb) = (*a as f64 / t1, *b as f64 / t8);
        assert!((pa - pb).abs() < 0.01, "{} vs {}", pa, pb);
    }
}

#[test]
fn progress_adds_up_to_samples_processed() {
    let s = henon_settings(1003, 4, [10, 10], 2.0);
    let progress = AtomicU64::new(0);
    render_seeded(&s, Some(5), &progress).unwrap();
    assert_eq!(progress.load(Ordering::Relaxed), 1000);
    let s = henon_settings(7, 1, [10, 10], 2.0);
    let progress = AtomicU64::new(0);
    render_seeded(&s, None, &progress).unwrap();
    assert_eq!(progress.load(Ordering::Relaxed), 7);
}

#[test]
fn progress_steps() {
    assert_eq!(progress_step(1, 250), 0);
    assert_eq!(progress_step(99, 250), 0);
    assert_eq!(progress_step(100, 250), 100);
    assert_eq!(progress_step(200, 250), 100);
    assert_eq!(progress_step(250, 250), 50);
    assert_eq!(progress_step(300, 300), 100);
    assert_eq!((1..=250).map(|d| progress_step(d, 250)).sum::<u64>(), 250);
}
