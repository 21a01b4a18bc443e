use galaxy_sim::components::Comet;
use galaxy_sim::components::Explosion;
use galaxy_sim::components::Position;
use galaxy_sim::sim::GalaxyState;
use galaxy_sim::sim::tick;
use galaxy_sim::ui::ButtonAction;

#[test]
fn startup_world_is_seed_deterministic() {
    let a = GalaxyState::new(99, 1_280_000, 720_000);
    let b = GalaxyState::new(99, 1_280_000, 720_000);
    assert_eq!(a.comets.len(), 3);
    assert_eq!(b.comets.len(), 3);
    for i in 0..3 {
        assert_eq!(a.comets[i], b.comets[i]);
    }
    assert_eq!(a.stars.value, 1000);
    assert_eq!(a.registry.len(), 0);
    assert_eq!(a.explosions.len(), 0);
    assert_eq!(a.rng.state, b.rng.state);
}

#[test]
fn first_tick_runs_the_startup_generation() {
    let mut state = GalaxyState::new(7, 1_280_000, 720_000);
    let fired = tick(&mut state, 16, None, &Vec::new());
    assert!(fired);
    assert!(state.registry.len() > 0);
    assert!(state.registry.len() <= 1000);
    assert_eq!(state.stars.last_generated_baseline, 1000);
    let fired_again = tick(&mut state, 16, None, &Vec::new());
    assert!(!fired_again);
}

#[test]
fn tick_runs_systems_in_order() {
    let mut state = GalaxyState::new(1, 1_000_000, 1_000_000);
    // a comet the click catches only because movement runs first: it starts
    // outside the hit radius and moves 10 units into it this tick
    state.comets = vec![Comet {
        position: Position { x: -59_000, y: 0 },
        direction: Position { x: 1000, y: 0 },
        speed: 200_000,
    }];
    state.explosions = vec![Explosion { position: Position { x: 5, y: 5 }, remaining: 40 }];
    let fired = tick(&mut state, 50, Some(Position { x: 0, y: 0 }), &Vec::new());
    assert_eq!(state.comets.len(), 0);
    // the old explosion expired before the click spawned the fresh one
    assert_eq!(state.explosions.len(), 1);
    assert_eq!(state.explosions[0].position, Position { x: -49_000, y: 0 });
    assert_eq!(state.explosions[0].remaining, 100);
    assert!(fired); // startup generation still owed on the first tick
}

#[test]
fn presses_within_a_tick_regenerate_once_at_the_sum() {
    let mut state = GalaxyState::new(3, 1_000_000, 1_000_000);
    let _ = tick(&mut state, 16, None, &Vec::new()); // settle startup at 1000
    let presses = vec![ButtonAction::AddThousand, ButtonAction::AddThousand];
    let fired = tick(&mut state, 16, None, &presses);
    assert!(fired);
    assert_eq!(state.stars.value, 3000);
    assert_eq!(state.stars.last_generated_baseline, 3000);
    assert!(state.registry.len() <= 3000);
    let fired_again = tick(&mut state, 16, None, &Vec::new());
    assert!(!fired_again);
}

#[test]
fn explosion_lifecycle_through_ticks() {
    let mut state = GalaxyState::new(4, 1_000_000, 1_000_000);
    state.comets = Vec::new();
    state.explosions = vec![Explosion { position: Position { x: 0, y: 0 }, remaining: 100 }];
    let _ = tick(&mut state, 60, None, &Vec::new());
    assert_eq!(state.explosions.len(), 1);
    assert_eq!(state.explosions[0].remaining, 40);
    let _ = tick(&mut state, 60, None, &Vec::new());
    assert_eq!(state.explosions.len(), 0);
}
