use galaxy_sim::comet::click_to_explode;
use galaxy_sim::comet::comet_movement;
use galaxy_sim::comet::explosion_cleanup;
use galaxy_sim::comet::spawn_comets;
use galaxy_sim::comet::spawn_explosion;
use galaxy_sim::components::Comet;
use galaxy_sim::components::Explosion;
use galaxy_sim::components::Position;
use galaxy_sim::rng::StarRng;

fn comet_at(x: i64, y: i64, dx: i64, dy: i64, speed: i64) -> Comet {
    Comet {
        position: Position { x, y },
        direction: Position { x: dx, y: dy },
        speed,
    }
}

#[test]
fn comet_moves_exactly_linearly() {
    // direction (1, 0) units, speed 200 units/s, dt 0.5 s => +(100, 0) units
    let mut comets = vec![comet_at(0, 0, 1000, 0, 200_000)];
    comet_movement(&mut comets, 500);
    assert_eq!(comets.len(), 1);
    assert_eq!(comets[0].position, Position { x: 100_000, y: 0 });
    assert_eq!(comets[0].direction, Position { x: 1000, y: 0 });
    assert_eq!(comets[0].speed, 200_000);
}

#[test]
fn direction_magnitude_scales_speed() {
    let mut comets = vec![
        comet_at(0, 0, 1000, 0, 200_000),
        comet_at(0, 0, 2000, 0, 200_000),
    ];
    comet_movement(&mut comets, 500);
    assert_eq!(comets[0].position.x * 2, comets[1].position.x);
}

#[test]
fn movement_accumulates_over_ticks() {
    let mut comets = vec![comet_at(-5000, 7000, 500, -250, 100_000)];
    comet_movement(&mut comets, 100);
    comet_movement(&mut comets, 100);
    // per tick: 500 * 100_000 * 100 / 1_000_000 = 5000; -250 => -2500
    assert_eq!(comets[0].position, Position { x: -5000 + 10_000, y: 7000 - 5000 });
}

#[test]
fn explosion_expires_after_two_short_ticks() {
    let mut explosions = vec![Explosion { position: Position { x: 1, y: 2 }, remaining: 100 }];
    explosion_cleanup(&mut explosions, 60);
    assert_eq!(explosions.len(), 1);
    assert_eq!(explosions[0].remaining, 40);
    explosion_cleanup(&mut explosions, 60);
    assert_eq!(explosions.len(), 0);
}

#[test]
fn explosion_expires_at_exact_zero() {
    let mut explosions = vec![Explosion { position: Position { x: 0, y: 0 }, remaining: 100 }];
    explosion_cleanup(&mut explosions, 100);
    assert_eq!(explosions.len(), 0);
}

#[test]
fn click_at_exact_radius_spares_the_comet() {
    let mut comets = vec![comet_at(50_000, 0, 1, 1, 50_000)];
    let mut explosions: Vec<Explosion> = Vec::new();
    click_to_explode(&mut comets, &mut explosions, Some(Position { x: 0, y: 0 }));
    assert_eq!(comets.len(), 1);
    assert_eq!(explosions.len(), 0);
}

#[test]
fn click_just_inside_radius_destroys_the_comet() {
    let mut comets = vec![comet_at(49_999, 0, 1, 1, 50_000)];
    let mut explosions: Vec<Explosion> = Vec::new();
    click_to_explode(&mut comets, &mut explosions, Some(Position { x: 0, y: 0 }));
    assert_eq!(comets.len(), 0);
    assert_eq!(explosions.len(), 1);
    assert_eq!(explosions[0].position, Position { x: 49_999, y: 0 });
    assert_eq!(explosions[0].remaining, 100);
}

#[test]
fn click_without_projection_is_a_noop() {
    let mut comets = vec![comet_at(10, 10, 1, 1, 50_000)];
    let mut explosions = vec![Explosion { position: Position { x: 5, y: 5 }, remaining: 30 }];
    click_to_explode(&mut comets, &mut explosions, None);
    assert_eq!(comets.len(), 1);
    assert_eq!(explosions.len(), 1);
    assert_eq!(explosions[0].remaining, 30);
}

#[test]
fn click_handles_all_simultaneous_hits() {
    let mut comets = vec![
        comet_at(10_000, 0, 1, 1, 50_000),
        comet_at(500_000, 0, 1, 1, 50_000),
        comet_at(0, 20_000, 1, 1, 50_000),
    ];
    let mut explosions: Vec<Explosion> = Vec::new();
    click_to_explode(&mut comets, &mut explosions, Some(Position { x: 0, y: 0 }));
    assert_eq!(comets.len(), 1);
    assert_eq!(comets[0].position, Position { x: 500_000, y: 0 });
    assert_eq!(explosions.len(), 2);
    assert_eq!(explosions[0].position, Position { x: 10_000, y: 0 });
    assert_eq!(explosions[1].position, Position { x: 0, y: 20_000 });
}

#[test]
fn spawn_explosion_starts_full() {
    let e = spawn_explosion(Position { x: 3, y: 4 });
    assert_eq!(e.position, Position { x: 3, y: 4 });
    assert_eq!(e.remaining, 100);
}

#[test]
fn spawn_comets_three_deterministic_and_bounded() {
    let mut r1 = StarRng::new(2024);
    let mut r2 = StarRng::new(2024);
    let a = spawn_comets(&mut r1, 1_280_000, 720_000);
    let b = spawn_comets(&mut r2, 1_280_000, 720_000);
    assert_eq!(a.len(), 3);
    assert_eq!(b.len(), 3);
    for i in 0..3 {
        assert_eq!(a[i], b[i]);
        assert!(a[i].position.x <= 0 && a[i].position.x >= -1_280_000);
        assert!(a[i].position.y <= 0 && a[i].position.y >= -720_000);
        assert!(0 <= a[i].direction.x && a[i].direction.x < 1000);
        assert!(0 <= a[i].direction.y && a[i].direction.y < 1000);
        assert_eq!(a[i].speed, 50_000);
    }
}
