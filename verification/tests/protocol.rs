use galaxy_sim::resources::StarsCount;
use galaxy_sim::rng::StarRng;
use galaxy_sim::star::BodyRegistry;
use galaxy_sim::star::update_stars;
use galaxy_sim::ui::ButtonAction;
use galaxy_sim::ui::button_system;
use galaxy_sim::ui::decimal_digits;

#[test]
fn monotonic_regeneration_fires_once_at_total() {
    let mut stars = StarsCount::new(0);
    stars.increment(1000);
    stars.increment(1000);
    let mut registry = BodyRegistry::new();
    let mut rng = StarRng::new(42);
    let fired = update_stars(&mut stars, &mut registry, &mut rng);
    assert!(fired);
    assert_eq!(stars.value, 2000);
    assert_eq!(stars.last_generated_baseline, 2000);
    assert!(registry.len() <= 2000);
    assert!(registry.len() > 0);
    let count_after_first = registry.len();
    let fired_again = update_stars(&mut stars, &mut registry, &mut rng);
    assert!(!fired_again);
    assert_eq!(registry.len(), count_after_first);
}

#[test]
fn increment_zero_never_triggers() {
    let mut stars = StarsCount::new(0);
    let mut registry = BodyRegistry::new();
    let mut rng = StarRng::new(5);
    // settle the fresh state: value 0 does not exceed baseline 0
    let fired0 = update_stars(&mut stars, &mut registry, &mut rng);
    assert!(!fired0);
    stars.increment(0);
    let fired1 = update_stars(&mut stars, &mut registry, &mut rng);
    assert!(!fired1);
    // also from a regenerated state
    stars.increment(500);
    assert!(update_stars(&mut stars, &mut registry, &mut rng));
    stars.increment(0);
    let fired2 = update_stars(&mut stars, &mut registry, &mut rng);
    assert!(!fired2);
}

#[test]
fn repeated_same_value_does_not_retrigger() {
    let mut stars = StarsCount::new(0);
    let mut registry = BodyRegistry::new();
    let mut rng = StarRng::new(6);
    stars.increment(100);
    assert!(update_stars(&mut stars, &mut registry, &mut rng));
    // a change flag without growth beyond the baseline must not fire
    stars.changed = true;
    assert!(!update_stars(&mut stars, &mut registry, &mut rng));
}

#[test]
fn default_count_owes_the_startup_pass() {
    let mut stars = StarsCount::default();
    assert_eq!(stars.value, 1000);
    assert_eq!(stars.last_generated_baseline, 0);
    assert!(stars.changed);
    let mut registry = BodyRegistry::new();
    let mut rng = StarRng::new(1);
    assert!(update_stars(&mut stars, &mut registry, &mut rng));
    assert_eq!(stars.last_generated_baseline, 1000);
}

#[test]
fn buttons_add_their_increments() {
    let mut stars = StarsCount::new(0);
    button_system(&mut stars, ButtonAction::AddThousand);
    assert_eq!(stars.value, 1000);
    button_system(&mut stars, ButtonAction::AddTenThousand);
    assert_eq!(stars.value, 11_000);
    assert!(stars.changed);
    assert_eq!(stars.last_generated_baseline, 0);
}

#[test]
fn registry_replaces_whole_set() {
    let mut registry = BodyRegistry::new();
    assert_eq!(registry.len(), 0);
    let mut rng = StarRng::new(3);
    let bodies = galaxy_sim::star::generate(25, 5, 5000, &mut rng);
    let expected = bodies.clone();
    registry.replace_all(bodies);
    assert_eq!(registry.len(), expected.len());
    for i in 0..expected.len() {
        assert_eq!(*registry.get(i), expected[i]);
    }
    registry.replace_all(Vec::new());
    assert_eq!(registry.len(), 0);
}

#[test]
fn decimal_digits_render_exactly() {
    assert_eq!(decimal_digits(0), b"0".to_vec());
    assert_eq!(decimal_digits(7), b"7".to_vec());
    assert_eq!(decimal_digits(1000), b"1000".to_vec());
    assert_eq!(decimal_digits(987_654_321), b"987654321".to_vec());
    assert_eq!(decimal_digits(u64::MAX), b"18446744073709551615".to_vec());
}
