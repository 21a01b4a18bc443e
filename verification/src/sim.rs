//! The whole simulation state and the per-tick driver.
//!
//! One tick runs the systems in the fixed order the simulation promises:
//! movement and explosion decay, then the click interaction, then the UI
//! increments, then the count-triggered regeneration. The contract of
//! `tick` is the composition of the systems' contracts, so a seed, a
//! tick sequence and its events determine the whole run.

use vstd::prelude::*;

use crate::comet::click_to_explode;
use crate::comet::comet_movement;
use crate::comet::explosion_cleanup;
use crate::comet::spawn_comets;
use crate::comet::spec_comet_in_bounds;
use crate::comet::spec_comet_spawned;
use crate::comet::spec_comets_moved;
use crate::comet::spec_explosions_after;
use crate::comet::spec_explosions_spawned;
use crate::comet::spec_surviving_comets;
use crate::components::COORD_ABS_MAX;
use crate::components::CelestialBody;
use crate::components::Comet;
use crate::components::DT_MAX_MS;
use crate::components::Explosion;
use crate::components::Position;
use crate::resources::StarsCount;
use crate::resources::spec_after_watch;
use crate::resources::spec_should_regenerate;
use crate::rng::StarRng;
use crate::rng::spec_advance_n;
use crate::star::BodyRegistry;
use crate::star::MAX_BODY_COUNT;
use crate::star::spec_generate_upto;
use crate::star::update_stars;
use crate::ui::ButtonAction;
use crate::ui::button_system;
use crate::ui::spec_after_presses;
use crate::ui::spec_increment_of;

verus! {

/// Everything the simulation owns: the count resource, the generated
/// bodies, the mobile entities, and the shared random generator.
pub struct GalaxyState {
    pub stars: StarsCount,
    pub registry: BodyRegistry,
    pub comets: Vec<Comet>,
    pub explosions: Vec<Explosion>,
    pub rng: StarRng,
}

impl GalaxyState {
    /// What `tick` needs of a state: a well-formed count and comets whose
    /// positions leave room for one tick of movement.
    pub open spec fn wf(self) -> bool {
        &&& self.stars.wf()
        &&& forall|i: int|
            0 <= i < self.comets@.len() ==> (#[trigger] self.comets@[i]).wf()
                && spec_comet_in_bounds(self.comets@[i])
    }

    /// The startup world: the default count of 1000 owed to the first
    /// watcher pass, an empty registry, three comets spawned from the
    /// seed, and no explosions.
    pub fn new(seed: u64, width: i64, height: i64) -> (s: GalaxyState)
        requires
            0 <= width <= 10_000_000,
            0 <= height <= 10_000_000,
        ensures
            s.wf(),
            s.stars.value == 1000,
            s.stars.last_generated_baseline == 0,
            s.stars.changed,
            s.registry.bodies@ == Seq::<CelestialBody>::empty(),
            s.explosions@ == Seq::<Explosion>::empty(),
            s.comets@.len() == 3,
            s.comets@[0] == spec_comet_spawned(seed, width as int, height as int),
            s.comets@[1] == spec_comet_spawned(
                spec_advance_n(seed, 4),
                width as int,
                height as int,
            ),
            s.comets@[2] == spec_comet_spawned(
                spec_advance_n(seed, 8),
                width as int,
                height as int,
            ),
            s.rng.state == spec_advance_n(seed, 12),
    {
        let mut rng = StarRng::new(seed);
        let comets = spawn_comets(&mut rng, width, height);
        let explosions: Vec<Explosion> = Vec::new();
        proof {
            assert(explosions@ =~= Seq::<Explosion>::empty());
        }
        GalaxyState {
            stars: StarsCount::new(1000),
            registry: BodyRegistry::new(),
            comets,
            explosions,
            rng,
        }
    }
}

/// One tick of the simulation, in the promised order: comets move,
/// explosions count down, a click (if projected) destroys close comets
/// and spawns explosions, the pressed buttons raise the count, and the
/// watcher regenerates the registry exactly when the raised count
/// exceeds the baseline. Returns whether regeneration fired.
pub fn tick(
    state: &mut GalaxyState,
    dt_ms: u64,
    click: Option<Position>,
    presses: &Vec<ButtonAction>,
) -> (fired: bool)
    requires
        old(state).wf(),
        dt_ms <= DT_MAX_MS,
        old(state).stars.value + 10_000 * presses@.len() <= MAX_BODY_COUNT,
        (match click {
            Some(p) => -COORD_ABS_MAX <= p.x <= COORD_ABS_MAX && -COORD_ABS_MAX <= p.y
                <= COORD_ABS_MAX,
            None => true,
        }),
    ensures
        final(state).comets@ == (match click {
            None => spec_comets_moved(old(state).comets@, dt_ms as int),
            Some(p) => spec_surviving_comets(
                spec_comets_moved(old(state).comets@, dt_ms as int),
                p,
            ),
        }),
        final(state).explosions@ == (match click {
            None => spec_explosions_after(old(state).explosions@, dt_ms as int),
            Some(p) => spec_explosions_after(old(state).explosions@, dt_ms as int)
                + spec_explosions_spawned(
                spec_comets_moved(old(state).comets@, dt_ms as int),
                p,
            ),
        }),
        fired == spec_should_regenerate(spec_after_presses(old(state).stars, presses@)),
        final(state).stars == spec_after_watch(spec_after_presses(old(state).stars, presses@)),
        final(state).stars.wf(),
        !fired ==> final(state).registry.bodies@ == old(state).registry.bodies@
            && final(state).rng == old(state).rng,
        fired ==> final(state).registry.bodies@ == spec_generate_upto(
            spec_after_presses(old(state).stars, presses@).value as nat,
            spec_after_presses(old(state).stars, presses@).value as int,
            5,
            5000,
            old(state).rng.state,
        ).0,
        fired ==> final(state).rng.state == spec_generate_upto(
            spec_after_presses(old(state).stars, presses@).value as nat,
            spec_after_presses(old(state).stars, presses@).value as int,
            5,
            5000,
            old(state).rng.state,
        ).1,
        fired ==> crate::star::spec_pairwise_separated(final(state).registry.bodies@, 5000),
{
    comet_movement(&mut state.comets, dt_ms);
    explosion_cleanup(&mut state.explosions, dt_ms);
    click_to_explode(&mut state.comets, &mut state.explosions, click);
    let ghost stars0 = state.stars;
    let ghost comets1 = state.comets@;
    let ghost expl1 = state.explosions@;
    let ghost reg0 = state.registry.bodies@;
    let ghost rng0 = state.rng;
    let np = presses.len();
    let mut idx: usize = 0;
    proof {
        assert(presses@.take(0) =~= Seq::<ButtonAction>::empty());
    }
    while idx < np
        invariant
            idx <= np,
            np == presses@.len(),
            state.stars == spec_after_presses(stars0, presses@.take(idx as int)),
            state.stars.wf(),
            stars0.wf(),
            state.stars.value <= stars0.value + 10_000 * idx,
            stars0.value + 10_000 * presses@.len() <= MAX_BODY_COUNT,
            state.comets@ == comets1,
            state.explosions@ == expl1,
            state.registry.bodies@ == reg0,
            state.rng == rng0,
        decreases np - idx,
    {
        let a = presses[idx];
        proof {
            assert(presses@.take(idx as int + 1).drop_last() =~= presses@.take(idx as int));
            assert(presses@.take(idx as int + 1).last() == presses@[idx as int]);
            assert(spec_increment_of(a) <= 10_000);
        }
        button_system(&mut state.stars, a);
        idx += 1;
    }
    proof {
        assert(presses@.take(np as int) =~= presses@);
    }
    update_stars(&mut state.stars, &mut state.registry, &mut state.rng)
}

} // verus!
