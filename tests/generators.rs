use attract::generator::{disk_point, gaussian_point};
use attract::{Aabb, Circle, Complex, Gaussian, Generator};
use rand::rngs::StdRng;
use rand::SeedableRng;

fn dist(p: Complex<f64>, c: Complex<f64>) -> f64 {
    ((p.re - c.re).powi(2) + (p.im - c.im).powi(2)).sqrt()
}

#[test]
fn disk_never_leaves_its_radius() {
    let centre = Complex::new(1.0, -2.0);
    for radius in [0.1f64, 1.0, 7.5] {
        let g = Generator::Circle { centre, radius };
        let mut rng = StdRng::seed_from_u64(11);
        let mut farthest = 0.0f64;
        for _ in 0..20_000 {
            let d = dist(g.sample(&mut rng).unwrap(), centre);
            assert!(d <= radius * (1.0 + 1e-12), "{} > {}", d, radius);
            farthest = farthest.max(d);
        }
        // the samples reach out to the rim, not to the square root of the radius
        assert!(farthest > 0.95 * radius);
    }
}

#[test]
fn disk_struct_never_leaves_its_radius() {
    let centre = Complex::new(0.5, 0.5);
    let c = Circle::new(centre, 0.1);
    let mut rng = StdRng::seed_from_u64(3);
    for _ in 0..10_000 {
        assert!(dist(c.sample(&mut rng).unwrap(), centre) <= 0.1 * (1.0 + 1e-12));
    }
}

#[test]
fn disk_point_from_angle_and_variate() {
    let centre = Complex::new(1.0f64, 1.0);
    // angle 0, distance √0.25 · 2 = 1
    let p = disk_point(centre, 2.0, 0.0, 0.25);
    assert!((p.re - 2.0).abs() < 1e-12 && (p.im - 1.0).abs() < 1e-12);
    // a quarter turn, distance √1 · 2 = 2
    let p = disk_point(centre, 2.0, std::f64::consts::FRAC_PI_2, 1.0);
    assert!((p.re - 1.0).abs() < 1e-12 && (p.im - 3.0).abs() < 1e-12);
    assert_eq!(disk_point(centre, 2.0, 0.3, 0.0), centre);
}

#[test]
fn disk_is_uniform_in_area() {
    let centre = Complex::new(0.0, 0.0);
    let g = Generator::Circle { centre, radius: 1.0 };
    let mut rng = StdRng::seed_from_u64(5);
    let n = 40_000;
    let inner = (0..n).filter(|_| dist(g.sample(&mut rng).unwrap(), centre) < 0.5).count();
    // a quarter of the area lies within half the radius
    let share = inner as f64 / n as f64;
    assert!((share - 0.25).abs() < 0.02, "{}", share);
}

#[test]
fn box_stays_inside() {
    let centre = Complex::new(1.0, 2.0);
    let half_size = Complex::new(0.5, 0.25);
    let g = Generator::Aabb { centre, half_size };
    let a = Aabb::new(centre, half_size);
    let mut rng = StdRng::seed_from_u64(1);
    for _ in 0..10_000 {
        for p in [g.sample(&mut rng).unwrap(), a.sample(&mut rng).unwrap()] {
            assert!(p.re >= 0.5 && p.re <= 1.5);
            assert!(p.im >= 1.75 && p.im <= 2.25);
        }
    }
}

#[test]
fn empty_box_draws_nothing() {
    let mut rng = StdRng::seed_from_u64(1);
    let flat = Generator::Aabb { centre: Complex::new(1.0f64, 2.0), half_size: Complex::new(0.5, 0.0) };
    assert_eq!(flat.sample(&mut rng), None);
    let negative = Aabb::new(Complex::new(0.0f64, 0.0), Complex::new(-1.0, 1.0));
    assert_eq!(negative.sample(&mut rng), None);
    let nan = Aabb::new(Complex::new(0.0f64, 0.0), Complex::new(f64::NAN, 1.0));
    assert_eq!(nan.sample(&mut rng), None);
}

#[test]
fn box_covers_all_four_quadrants() {
    let g = Generator::Aabb { centre: Complex::new(0.0f64, 0.0), half_size: Complex::new(1.0, 1.0) };
    let mut rng = StdRng::seed_from_u64(2);
    let mut seen = [false; 4];
    for _ in 0..1000 {
        let p = g.sample(&mut rng).unwrap();
        seen[(p.re >= 0.0) as usize * 2 + (p.im >= 0.0) as usize] = true;
    }
    assert!(seen.iter().all(|&s| s));
}

#[test]
fn gaussian_point_from_units() {
    // distance √(−2·ln e^{−1/2}) · 2 = 2 at angle 0
    let p = gaussian_point(Complex::new(1.0f64, -1.0), 2.0, (-0.5f64).exp(), 0.0);
    assert!((p.re - 3.0).abs() < 1e-12 && (p.im + 1.0).abs() < 1e-12);
}

#[test]
fn gaussian_spread_matches_std_dev() {
    let centre = Complex::new(3.0f64, -1.0);
    let g = Gaussian::new(centre, 0.5);
    let mut rng = StdRng::seed_from_u64(9);
    let n = 40_000;
    let mut sum = 0.0;
    let mut sum_sq = 0.0;
    for _ in 0..n {
        let p = g.sample(&mut rng);
        sum += p.re - centre.re;
        sum_sq += (p.re - centre.re).powi(2);
    }
    let mean = sum / n as f64;
    let var = sum_sq / n as f64 - mean * mean;
    assert!(mean.abs() < 0.02, "{}", mean);
    assert!((var.sqrt() - 0.5).abs() < 0.02, "{}", var.sqrt());
}

#[test]
fn gaussian_generator_always_draws() {
    let g = Generator::Gaussian { centre: Complex::new(0.0f64, 0.0), std_dev: 1.0 };
    let mut rng = StdRng::seed_from_u64(4);
    assert!((0..1000).all(|_| g.sample(&mut rng).is_some()));
}
