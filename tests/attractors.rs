use attract::{
    Attractor, Chirikov, Clifford, Complex, DeJong, Duffing, Gingerbreadman, Henon, Ikeda,
    Tinkerbell,
};

fn close(p: Complex<f64>, re: f64, im: f64) -> bool {
    (p.re - re).abs() < 1e-12 && (p.im - im).abs() < 1e-12
}

#[test]
fn henon_from_origin() {
    let p = Henon::new(1.4, 0.3).iterate(Complex::new(0.0, 0.0));
    assert_eq!(p, Complex::new(1.0, 0.0));
}

#[test]
fn henon_general_point() {
    // 1 − 1.4·0.25 + 0.2 = 0.85, 0.3·0.5 = 0.15
    let p = Henon::new(1.4, 0.3).iterate(Complex::new(0.5, 0.2));
    assert!(close(p, 0.85, 0.15));
}

#[test]
fn clifford_from_origin() {
    let p = Clifford::new(-1.4, 1.6, 0.5, 0.7).iterate(Complex::new(0.0, 0.0));
    assert_eq!(p, Complex::new(0.5, 0.7));
}

#[test]
fn clifford_general_point() {
    let (a, b, c, d) = (-1.4f64, 1.6, 1.0, 0.7);
    let (x, y) = (0.3f64, -0.2);
    let p = Clifford::new(a, b, c, d).iterate(Complex::new(x, y));
    let re = (a * y).sin() + c * (a * x).cos();
    let im = (b * x).sin() + d * (b * y).cos();
    assert!(close(p, re, im));
}

#[test]
fn de_jong_from_origin() {
    let p = DeJong::new(1.4, -2.3, 2.4, -2.1).iterate(Complex::new(0.0, 0.0));
    assert!(close(p, 2.3, 2.1));
}

#[test]
fn tinkerbell_general_point() {
    // x' = 1 − 4 + 0.9 − 1.2026, y' = 2·1·2 + 2·1 + 0.5·2
    let p = Tinkerbell::new(0.9, -0.6013, 2.0, 0.5).iterate(Complex::new(1.0, 2.0));
    assert!(close(p, -3.3026, 7.0));
}

#[test]
fn duffing_general_point() {
    // x' = 2, y' = −0.2·1 + 2.75·2 − 8
    let p = Duffing::new(2.75, 0.2).iterate(Complex::new(1.0, 2.0));
    assert!(close(p, 2.0, -2.7));
}

#[test]
fn chirikov_general_point() {
    let k = 0.9f64;
    let p = Chirikov::new(k).iterate(Complex::new(1.0, 0.5));
    let momentum = 0.5 + k * 1.0f64.sin();
    assert!(close(p, 1.0 + momentum, momentum));
}

#[test]
fn ikeda_from_origin() {
    let p = Ikeda::new(0.9).iterate(Complex::new(0.0, 0.0));
    assert!(close(p, 1.0, 0.0));
}

#[test]
fn ikeda_general_point() {
    let u = 0.9f64;
    let (x, y) = (1.0f64, 1.0);
    let t = 0.4 - 6.0 / (1.0 + x * x + y * y);
    let p = Ikeda::new(u).iterate(Complex::new(x, y));
    assert!(close(p, 1.0 + u * (x * t.cos() - y * t.sin()), u * (x * t.sin() + y * t.cos())));
}

#[test]
fn gingerbreadman_general_point() {
    let p = Gingerbreadman::<f64>::new().iterate(Complex::new(-2.0, 3.0));
    assert_eq!(p, Complex::new(0.0, -2.0));
}

#[test]
fn enum_dispatches_to_variant() {
    let start = Complex::new(0.25, -0.5);
    let h = Henon::new(1.4, 0.3);
    assert_eq!(Attractor::Henon(h).iterate(start), h.iterate(start));
    let g = Gingerbreadman::new();
    assert_eq!(Attractor::Gingerbreadman(g).iterate(start), g.iterate(start));
}

#[test]
fn divergent_orbit_gives_no_panic() {
    let t = Tinkerbell::new(10.0, 10.0, 10.0, 10.0);
    let mut p = Complex::new(5.0f64, 5.0);
    for _ in 0..200 {
        p = t.iterate(p);
    }
    assert!(!p.re.is_finite() || p.re.abs() > 1e10);
}

#[test]
fn works_in_single_precision() {
    let p = Henon::new(1.4f32, 0.3).iterate(Complex::new(0.0, 0.0));
    assert_eq!(p, Complex::new(1.0f32, 0.0));
}
