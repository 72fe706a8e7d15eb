use life_grid::seed::{cell_from_draw, random_draws, seed_from_draws, seed_random, ALIVE_DENOMINATOR, ALIVE_NUMERATOR};

#[test]
fn draws_map_to_cells() {
    assert_eq!(cell_from_draw(true), 1);
    assert_eq!(cell_from_draw(false), 0);
    assert_eq!(seed_from_draws(&vec![true, false, false, true]), vec![1, 0, 0, 1]);
    assert_eq!(seed_from_draws(&Vec::new()), Vec::<u32>::new());
}

#[test]
fn random_seed_is_binary() {
    let s = seed_random(1024);
    assert_eq!(s.len(), 1024);
    assert!(s.iter().all(|&c| c == 0 || c == 1));
    assert_eq!(seed_random(0).len(), 0);
}

#[test]
fn seed_fraction_alive_near_three_fifths() {
    let n = 200_000usize;
    let s = seed_random(n);
    let alive = s.iter().filter(|&&c| c == 1).count();
    let fraction = alive as f64 / n as f64;
    let p = ALIVE_NUMERATOR as f64 / ALIVE_DENOMINATOR as f64;
    assert!((p - 0.6).abs() < 1e-12);
    // Five standard deviations of the sample mean is about 0.0055.
    assert!((fraction - 0.6).abs() < 0.01, "fraction {}", fraction);
    let d = random_draws(n);
    let t = d.iter().filter(|&&b| b).count() as f64 / n as f64;
    assert!((t - 0.6).abs() < 0.01, "fraction {}", t);
}
