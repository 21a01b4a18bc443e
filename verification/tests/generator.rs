use galaxy_sim::math::isqrt;
use galaxy_sim::rng::StarRng;
use galaxy_sim::star::generate;
use galaxy_sim::star::spawn_planets;
use galaxy_sim::star::spawn_stars;
use galaxy_sim::trig::cos_mrad;
use galaxy_sim::trig::sin_mrad;

fn pairwise_min_dist_sq_holds(bodies: &Vec<galaxy_sim::components::CelestialBody>, min_sep: i64) {
    let min_sq = (min_sep as i128) * (min_sep as i128);
    for j in 0..bodies.len() {
        for k in 0..bodies.len() {
            if j != k {
                let a = bodies[j].position;
                let b = bodies[k].position;
                let dx = (a.x as i128) - (b.x as i128);
                let dy = (a.y as i128) - (b.y as i128);
                assert!(dx * dx + dy * dy >= min_sq);
            }
        }
    }
}

#[test]
fn min_separation_holds_over_counts() {
    for (count, seed) in [(0usize, 1u64), (1, 2), (10, 3), (100, 4), (1500, 99)] {
        let mut rng = StarRng::new(seed);
        let bodies = generate(count, 5, 5000, &mut rng);
        assert!(bodies.len() <= count);
        pairwise_min_dist_sq_holds(&bodies, 5000);
    }
}

#[test]
fn determinism_same_seed_same_layout() {
    let mut rng1 = StarRng::new(12345);
    let mut rng2 = StarRng::new(12345);
    let b1 = generate(300, 5, 5000, &mut rng1);
    let b2 = generate(300, 5, 5000, &mut rng2);
    assert_eq!(b1.len(), b2.len());
    for i in 0..b1.len() {
        assert_eq!(b1[i], b2[i]);
    }
    assert_eq!(rng1.state, rng2.state);
}

#[test]
fn different_seeds_differ() {
    let mut rng1 = StarRng::new(1);
    let mut rng2 = StarRng::new(2);
    let b1 = generate(50, 5, 5000, &mut rng1);
    let b2 = generate(50, 5, 5000, &mut rng2);
    let mut same = b1.len() == b2.len();
    if same {
        for i in 0..b1.len() {
            if b1[i] != b2[i] {
                same = false;
            }
        }
    }
    assert!(!same);
}

#[test]
fn golden_seed_42_returns_ten_stable_positions() {
    let mut rng1 = StarRng::new(42);
    let b1 = generate(10, 5, 5000, &mut rng1);
    assert_eq!(b1.len(), 10);
    let mut rng2 = StarRng::new(42);
    let b2 = generate(10, 5, 5000, &mut rng2);
    assert_eq!(b2.len(), 10);
    for i in 0..10 {
        assert_eq!(b1[i].position, b2[i].position);
        assert_eq!(b1[i].kind, b2[i].kind);
        assert_eq!(b1[i].size, b2[i].size);
    }
    pairwise_min_dist_sq_holds(&b1, 5000);
}

#[test]
fn zero_count_returns_empty() {
    let mut rng = StarRng::new(7);
    let bodies = generate(0, 5, 5000, &mut rng);
    assert_eq!(bodies.len(), 0);
    assert_eq!(rng.state, 7);
}

#[test]
fn sizes_stay_in_range() {
    let mut rng = StarRng::new(11);
    let bodies = generate(200, 5, 5000, &mut rng);
    for b in &bodies {
        assert!(200 <= b.size && b.size < 5900);
    }
}

#[test]
fn spawn_stars_matches_generate() {
    let mut rng1 = StarRng::new(8);
    let mut rng2 = StarRng::new(8);
    let b1 = spawn_stars(120, &mut rng1);
    let b2 = generate(120, 5, 5000, &mut rng2);
    assert_eq!(b1.len(), b2.len());
    for i in 0..b1.len() {
        assert_eq!(b1[i], b2[i]);
    }
}

#[test]
fn spawn_planets_requests_ten_thousand() {
    let mut rng = StarRng::new(9);
    let bodies = spawn_planets(&mut rng);
    assert!(bodies.len() <= 10_000);
    assert!(bodies.len() > 9000);
    pairwise_min_dist_sq_holds(&bodies, 5000);
}

#[test]
fn isqrt_exact_values() {
    assert_eq!(isqrt(0), 0);
    assert_eq!(isqrt(1), 1);
    assert_eq!(isqrt(3), 1);
    assert_eq!(isqrt(4), 2);
    assert_eq!(isqrt(999_999), 999);
    assert_eq!(isqrt(1_000_000), 1000);
    assert_eq!(isqrt(u64::MAX), 4_294_967_295);
}

#[test]
fn trig_landmark_values() {
    assert_eq!(sin_mrad(0), 0);
    assert_eq!(sin_mrad(1571), 1000);
    assert_eq!(sin_mrad(3142 + 1571), -1000);
    assert_eq!(cos_mrad(0), 1000);
    assert_eq!(cos_mrad(3142), -1000);
    for a in 0..12_566u64 {
        let s = sin_mrad(a);
        let c = cos_mrad(a);
        assert!(-1000 <= s && s <= 1000);
        assert!(-1000 <= c && c <= 1000);
    }
}

#[test]
fn rng_draws_are_seeded_and_bounded() {
    let mut r1 = StarRng::new(77);
    let mut r2 = StarRng::new(77);
    for _ in 0..100 {
        let a = r1.next_below(1000);
        let b = r2.next_below(1000);
        assert_eq!(a, b);
        assert!(a < 1000);
    }
    for _ in 0..100 {
        let v = r1.next_in_range(-50, 50);
        assert!(-50 <= v && v < 50);
    }
}
