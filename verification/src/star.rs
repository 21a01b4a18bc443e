//! The spiral-distribution generator and the star registry.
//!
//! `generate` lays `count` bodies along `arm_count` spiral arms: each index
//! is assigned an arm, a winding angle and a growing radius, jittered by
//! two bounded random draws, and the candidate is kept only if it stays at
//! least `min_separation` away from every body accepted before it. The
//! whole pass is a function of the generator seed, stated exactly by
//! `spec_generate_upto`.

use vstd::prelude::*;
use vstd::arithmetic::div_mod::lemma_div_is_ordered;
use vstd::arithmetic::div_mod::lemma_div_nonincreasing;
use vstd::arithmetic::div_mod::lemma_div_pos_is_pos;

use crate::components::BodyKind;
use crate::components::CelestialBody;
use crate::components::Position;
use crate::components::dist_sq;
use crate::components::lemma_dist_sq_sym;
use crate::components::spec_dist_sq;
use crate::math::isqrt;
use crate::math::spec_isqrt;
use crate::resources::StarsCount;
use crate::resources::spec_after_watch;
use crate::resources::spec_should_regenerate;
use crate::rng::StarRng;
use crate::rng::spec_rng_advance;
use crate::rng::spec_rng_value;
use crate::trig::cos_mrad;
use crate::trig::sin_mrad;
use crate::trig::spec_cos;
use crate::trig::spec_sin;

verus! {

/// Fixed index offset that varies the starting arm.
pub const ARM_OFFSET: u64 = 100;

/// Largest body count one generation pass accepts; it also caps the number
/// of candidate attempts, since each index yields exactly one candidate.
pub const MAX_BODY_COUNT: usize = 1_000_000;

/// Largest admissible arm count.
pub const MAX_ARM_COUNT: usize = 1000;

/// Largest admissible minimum separation, in milli-units.
pub const MAX_MIN_SEPARATION: i64 = 1_000_000_000;

/// No generated coordinate leaves this bound (milli-units).
pub const BODY_COORD_MAX: i64 = 2_000_000_000;

/// `r * c / 1000` for a non-negative radius `r` and a cosine or sine `c`
/// in milli-units, rounded towards zero.
pub open spec fn spec_scale_milli(r: int, c: int) -> int {
    if c >= 0 {
        (r * c) / 1000
    } else {
        -((r * (-c)) / 1000)
    }
}

/// Where the candidate for index `i` lands, given the two jitter draws:
/// arm assignment, winding angle, radius growth, and polar-to-Cartesian
/// conversion, all in fixed point. The full turn added to the angle keeps
/// it non-negative under jitter and does not move the point.
pub open spec fn spec_candidate(i: int, count: int, arm_count: int, an: int, rn: int) -> Position {
    let arm = (i + ARM_OFFSET) % arm_count;
    let arm_angle = (arm * 6283) / arm_count;
    let t = spec_isqrt(((i * 1_000_000) / count) as nat) as int;
    let theta = (t * 31416) / 1000;
    let radius = 40_000 + 100 * t + i * 1000;
    let angle = arm_angle + theta + 6283 + an;
    let rad_eff = radius + rn;
    Position {
        x: spec_scale_milli(rad_eff, spec_cos(angle)) as i64,
        y: spec_scale_milli(rad_eff, spec_sin(angle)) as i64,
    }
}

fn scale_milli(r: u64, c: i64) -> (res: i64)
    requires
        r <= 2_000_000_000,
        -1000 <= c <= 1000,
    ensures
        res == spec_scale_milli(r as int, c as int),
        -(r as int) <= res <= r as int,
{
    if c >= 0 {
        proof {
            assert(0 <= (r as int) * (c as int) <= (r as int) * 1000) by (nonlinear_arith)
                requires r <= 2_000_000_000 && 0 <= c <= 1000;
        }
        let num: u64 = r * (c as u64);
        proof {
            lemma_div_pos_is_pos(num as int, 1000);
            lemma_div_is_ordered(num as int, (r as int) * 1000, 1000);
            vstd::arithmetic::div_mod::lemma_div_multiples_vanish(r as int, 1000);
            assert((r as int) * 1000 == 1000 * (r as int));
        }
        (num / 1000) as i64
    } else {
        proof {
            assert(0 <= (r as int) * (-c as int) <= (r as int) * 1000) by (nonlinear_arith)
                requires r <= 2_000_000_000 && -1000 <= c < 0;
        }
        let num: u64 = r * ((-c) as u64);
        proof {
            lemma_div_pos_is_pos(num as int, 1000);
            lemma_div_is_ordered(num as int, (r as int) * 1000, 1000);
            vstd::arithmetic::div_mod::lemma_div_multiples_vanish(r as int, 1000);
            assert((r as int) * 1000 == 1000 * (r as int));
        }
        -((num / 1000) as i64)
    }
}

/// Computes `spec_candidate` in executable fixed point.
fn candidate(i: usize, count: usize, arm_count: usize, an: i64, rn: i64) -> (p: Position)
    requires
        i < count,
        count <= MAX_BODY_COUNT,
        0 < arm_count <= MAX_ARM_COUNT,
        -50 <= an < 50,
        -1000 <= rn < 1000,
    ensures
        p == spec_candidate(i as int, count as int, arm_count as int, an as int, rn as int),
        -BODY_COORD_MAX <= p.x <= BODY_COORD_MAX,
        -BODY_COORD_MAX <= p.y <= BODY_COORD_MAX,
{
    let iu = i as u64;
    let cu = count as u64;
    let au = arm_count as u64;
    let arm: u64 = (iu + ARM_OFFSET) % au;
    assert(arm < au);
    let arm_angle: u64 = (arm * 6283) / au;
    proof {
        assert(arm * 6283 <= 1000 * 6283) by (nonlinear_arith)
            requires 0 <= arm <= 1000;
        lemma_div_nonincreasing((arm * 6283) as int, au as int);
        lemma_div_pos_is_pos((arm * 6283) as int, au as int);
    }
    let prog: u64 = (iu * 1_000_000) / cu;
    proof {
        lemma_div_nonincreasing((iu * 1_000_000) as int, cu as int);
        lemma_div_pos_is_pos((iu * 1_000_000) as int, cu as int);
    }
    let t: u64 = isqrt(prog);
    assert(t <= 1_000_000) by (nonlinear_arith)
        requires t * t <= prog && prog <= 1_000_000_000_000 && t >= 0;
    let theta: u64 = (t * 31416) / 1000;
    proof {
        lemma_div_nonincreasing((t * 31416) as int, 1000);
        lemma_div_pos_is_pos((t * 31416) as int, 1000);
        assert(t * 31416 <= 1_000_000 * 31416) by (nonlinear_arith)
            requires 0 <= t <= 1_000_000;
    }
    let radius: u64 = 40_000 + 100 * t + iu * 1000;
    let angle: i64 = (arm_angle as i64) + (theta as i64) + 6283 + an;
    assert(angle >= 6233);
    let rad_eff: u64 = ((radius as i64) + rn) as u64;
    assert(rad_eff <= 2_000_000_000);
    let c = cos_mrad(angle as u64);
    let s = sin_mrad(angle as u64);
    let px = scale_milli(rad_eff, c);
    let py = scale_milli(rad_eff, s);
    Position { x: px, y: py }
}

/// The kind assigned to a draw below 4.
pub open spec fn spec_kind_of(v: u64) -> BodyKind {
    if v == 0 {
        BodyKind::Barren
    } else if v == 1 {
        BodyKind::Ice
    } else if v == 2 {
        BodyKind::Lava
    } else {
        BodyKind::Terran
    }
}

fn kind_of(v: u64) -> (k: BodyKind)
    requires
        v < 4,
    ensures
        k == spec_kind_of(v),
{
    match v {
        0 => BodyKind::Barren,
        1 => BodyKind::Ice,
        2 => BodyKind::Lava,
        _ => BodyKind::Terran,
    }
}

/// Bounds every generated body satisfies.
pub open spec fn spec_body_wf(b: CelestialBody) -> bool {
    &&& -BODY_COORD_MAX <= b.position.x <= BODY_COORD_MAX
    &&& -BODY_COORD_MAX <= b.position.y <= BODY_COORD_MAX
    &&& 200 <= b.size < 5900
}

/// Any two distinct bodies stand at least `min_sep` apart.
pub open spec fn spec_pairwise_separated(bodies: Seq<CelestialBody>, min_sep: int) -> bool {
    forall|j: int, k: int|
        0 <= j < bodies.len() && 0 <= k < bodies.len() && j != k ==> #[trigger] spec_dist_sq(
            bodies[j].position,
            bodies[k].position,
        ) >= min_sep * min_sep
}

/// The candidate `c` keeps at least `min_sep` from every accepted body.
pub open spec fn spec_far_from_all(bodies: Seq<CelestialBody>, c: Position, min_sep: int) -> bool {
    forall|j: int|
        0 <= j < bodies.len() ==> #[trigger] spec_dist_sq(bodies[j].position, c) >= min_sep
            * min_sep
}

/// The accepted bodies and the generator state after the first `n`
/// candidate indices have been processed. Each index draws, in this order,
/// an angle jitter in `-50..50` milli-radians, a radius jitter in
/// `-1000..1000` milli-units, a kind below 4, and a size in `200..5900`
/// milli-units; the candidate is appended exactly when it keeps its
/// distance from all earlier ones.
pub open spec fn spec_generate_upto(
    n: nat,
    count: int,
    arm_count: int,
    min_sep: int,
    seed: u64,
) -> (Seq<CelestialBody>, u64)
    decreases n,
{
    if n == 0 {
        (Seq::<CelestialBody>::empty(), seed)
    } else {
        let prev = spec_generate_upto((n - 1) as nat, count, arm_count, min_sep, seed);
        let bodies = prev.0;
        let s0 = prev.1;
        let s1 = spec_rng_advance(s0);
        let s2 = spec_rng_advance(s1);
        let s3 = spec_rng_advance(s2);
        let s4 = spec_rng_advance(s3);
        let an = -50 + spec_rng_value(s0) % 100;
        let rn = -1000 + spec_rng_value(s1) % 2000;
        let kv = spec_rng_value(s2) % 4;
        let sz = 200 + spec_rng_value(s3) % 5700;
        let c = spec_candidate((n - 1) as int, count, arm_count, an as int, rn as int);
        if spec_far_from_all(bodies, c, min_sep) {
            (
                bodies.push(
                    CelestialBody { position: c, kind: spec_kind_of(kv), size: sz as i64 },
                ),
                s4,
            )
        } else {
            (bodies, s4)
        }
    }
}

/// One spiral generation pass: the procedural placement with
/// minimum-separation rejection sampling. The result is pinned to
/// `spec_generate_upto`, so a seed and a parameter set determine the
/// layout completely; at most `count` candidates are ever attempted, and
/// rejected indices are simply skipped, so the pass may return fewer than
/// `count` bodies but always terminates.
pub fn generate(count: usize, arm_count: usize, min_separation: i64, rng: &mut StarRng) -> (bodies:
    Vec<CelestialBody>)
    requires
        count <= MAX_BODY_COUNT,
        0 < arm_count <= MAX_ARM_COUNT,
        0 <= min_separation <= MAX_MIN_SEPARATION,
    ensures
        bodies@ == spec_generate_upto(
            count as nat,
            count as int,
            arm_count as int,
            min_separation as int,
            old(rng).state,
        ).0,
        final(rng).state == spec_generate_upto(
            count as nat,
            count as int,
            arm_count as int,
            min_separation as int,
            old(rng).state,
        ).1,
        bodies@.len() <= count,
        spec_pairwise_separated(bodies@, min_separation as int),
        forall|j: int| 0 <= j < bodies@.len() ==> #[trigger] spec_body_wf(bodies@[j]),
{
    let ghost c_i = count as int;
    let ghost a_i = arm_count as int;
    let ghost m_i = min_separation as int;
    let ghost seed0 = rng.state;
    proof {
        assert(0 <= (min_separation as i128) * (min_separation as i128)
            <= 1_000_000_000_000_000_000) by (nonlinear_arith)
            requires 0 <= min_separation <= 1_000_000_000;
    }
    let min_sq: i128 = (min_separation as i128) * (min_separation as i128);
    let mut bodies: Vec<CelestialBody> = Vec::new();
    assert(bodies@ =~= spec_generate_upto(0, c_i, a_i, m_i, seed0).0);
    let mut i: usize = 0;
    while i < count
        invariant
            i <= count,
            count <= MAX_BODY_COUNT,
            0 < arm_count <= MAX_ARM_COUNT,
            0 <= min_separation <= MAX_MIN_SEPARATION,
            min_sq == m_i * m_i,
            c_i == count as int,
            a_i == arm_count as int,
            m_i == min_separation as int,
            bodies@ == spec_generate_upto(i as nat, c_i, a_i, m_i, seed0).0,
            rng.state == spec_generate_upto(i as nat, c_i, a_i, m_i, seed0).1,
            bodies@.len() <= i,
            forall|j: int, k: int|
                0 <= j < bodies@.len() && 0 <= k < bodies@.len() && j != k
                    ==> #[trigger] spec_dist_sq(bodies@[j].position, bodies@[k].position) >= m_i
                    * m_i,
            forall|j: int| 0 <= j < bodies@.len() ==> #[trigger] spec_body_wf(bodies@[j]),
        decreases count - i,
    {
        let ghost pre = spec_generate_upto(i as nat, c_i, a_i, m_i, seed0);
        let ghost s0 = rng.state;
        let an = rng.next_in_range(-50, 50);
        let rn = rng.next_in_range(-1000, 1000);
        let kv = rng.next_below(4);
        let szr = rng.next_below(5700);
        let sz: i64 = 200 + (szr as i64);
        let cand = candidate(i, count, arm_count, an, rn);
        let mut ok = true;
        let mut j: usize = 0;
        while j < bodies.len()
            invariant
                j <= bodies@.len(),
                min_sq == m_i * m_i,
                -BODY_COORD_MAX <= cand.x <= BODY_COORD_MAX,
                -BODY_COORD_MAX <= cand.y <= BODY_COORD_MAX,
                forall|l: int| 0 <= l < bodies@.len() ==> #[trigger] spec_body_wf(bodies@[l]),
                ok ==> forall|l: int|
                    0 <= l < j ==> #[trigger] spec_dist_sq(bodies@[l].position, cand) >= m_i * m_i,
                !ok ==> !spec_far_from_all(bodies@, cand, m_i),
            decreases bodies@.len() - j,
        {
            assert(spec_body_wf(bodies@[j as int]));
            let d = dist_sq(bodies[j].position, cand);
            if d < min_sq {
                ok = false;
            }
            j += 1;
        }
        assert(ok == spec_far_from_all(bodies@, cand, m_i));
        let kb = kind_of(kv);
        let new_body = CelestialBody { position: cand, kind: kb, size: sz };
        proof {
            let post = spec_generate_upto((i + 1) as nat, c_i, a_i, m_i, seed0);
            assert(spec_generate_upto(((i + 1) as nat - 1) as nat, c_i, a_i, m_i, seed0) == pre);
            assert(post.1 == rng.state);
            if ok {
                assert(post.0 == pre.0.push(new_body));
            } else {
                assert(post.0 == pre.0);
            }
        }
        if ok {
            bodies.push(new_body);
            proof {
                let nl = bodies@.len() as int;
                assert forall|j1: int, k1: int|
                    0 <= j1 < nl && 0 <= k1 < nl && j1 != k1 implies #[trigger] spec_dist_sq(
                    bodies@[j1].position,
                    bodies@[k1].position,
                ) >= m_i * m_i by {
                    if j1 < nl - 1 && k1 < nl - 1 {
                    } else if j1 == nl - 1 {
                        assert(spec_dist_sq(bodies@[k1].position, cand) >= m_i * m_i);
                        lemma_dist_sq_sym(bodies@[k1].position, cand);
                    } else {
                        assert(spec_dist_sq(bodies@[j1].position, cand) >= m_i * m_i);
                    }
                }
            }
        }
        i += 1;
    }
    bodies
}

/// Arm count of every generation pass.
pub const ARM_COUNT: usize = 5;

/// Minimum separation of every generation pass, in milli-units: 5 units.
pub const MIN_SEPARATION: i64 = 5000;

/// How many bodies the one-shot planet pass requests.
pub const PLANET_COUNT: usize = 10_000;

/// Owns the live set of generated bodies; regeneration replaces the whole
/// set at once, never a part of it.
pub struct BodyRegistry {
    pub bodies: Vec<CelestialBody>,
}

impl BodyRegistry {
    pub fn new() -> (r: BodyRegistry)
        ensures
            r.bodies@ == Seq::<CelestialBody>::empty(),
    {
        let r = BodyRegistry { bodies: Vec::new() };
        assert(r.bodies@ =~= Seq::<CelestialBody>::empty());
        r
    }

    /// Atomically discards the previous set and installs the new one.
    pub fn replace_all(&mut self, new_bodies: Vec<CelestialBody>)
        ensures
            final(self).bodies@ == new_bodies@,
    {
        self.bodies = new_bodies;
    }

    pub fn len(&self) -> (n: usize)
        ensures
            n == self.bodies@.len(),
    {
        self.bodies.len()
    }

    pub fn get(&self, i: usize) -> (b: &CelestialBody)
        requires
            i < self.bodies@.len(),
        ensures
            *b == self.bodies@[i as int],
    {
        &self.bodies[i]
    }
}

/// A full star pass: `count` bodies on `ARM_COUNT` arms with the standard
/// minimum separation.
pub fn spawn_stars(count: usize, rng: &mut StarRng) -> (bodies: Vec<CelestialBody>)
    requires
        count <= MAX_BODY_COUNT,
    ensures
        bodies@ == spec_generate_upto(count as nat, count as int, 5, 5000, old(rng).state).0,
        final(rng).state == spec_generate_upto(
            count as nat,
            count as int,
            5,
            5000,
            old(rng).state,
        ).1,
        bodies@.len() <= count,
        spec_pairwise_separated(bodies@, 5000),
        forall|j: int| 0 <= j < bodies@.len() ==> #[trigger] spec_body_wf(bodies@[j]),
{
    generate(count, ARM_COUNT, MIN_SEPARATION, rng)
}

/// A one-shot startup pass: a fixed request of `PLANET_COUNT` bodies
/// through the same generator.
pub fn spawn_planets(rng: &mut StarRng) -> (bodies: Vec<CelestialBody>)
    ensures
        bodies@ == spec_generate_upto(
            PLANET_COUNT as nat,
            PLANET_COUNT as int,
            5,
            5000,
            old(rng).state,
        ).0,
        final(rng).state == spec_generate_upto(
            PLANET_COUNT as nat,
            PLANET_COUNT as int,
            5,
            5000,
            old(rng).state,
        ).1,
        bodies@.len() <= PLANET_COUNT,
{
    generate(PLANET_COUNT, ARM_COUNT, MIN_SEPARATION, rng)
}

/// The per-tick watcher: regenerates the registry exactly when the count
/// changed and exceeds the baseline of the last pass, then records the new
/// baseline; in every case it consumes the change flag.
pub fn update_stars(
    stars: &mut StarsCount,
    registry: &mut BodyRegistry,
    rng: &mut StarRng,
) -> (fired: bool)
    requires
        old(stars).wf(),
        old(stars).value <= MAX_BODY_COUNT,
    ensures
        fired == spec_should_regenerate(*old(stars)),
        *final(stars) == spec_after_watch(*old(stars)),
        final(stars).wf(),
        !fired ==> final(registry).bodies@ == old(registry).bodies@ && *final(rng) == *old(rng),
        fired ==> final(registry).bodies@ == spec_generate_upto(
            old(stars).value as nat,
            old(stars).value as int,
            5,
            5000,
            old(rng).state,
        ).0,
        fired ==> final(rng).state == spec_generate_upto(
            old(stars).value as nat,
            old(stars).value as int,
            5,
            5000,
            old(rng).state,
        ).1,
        fired ==> spec_pairwise_separated(final(registry).bodies@, 5000),
{
    let fired = stars.changed && stars.value > stars.last_generated_baseline;
    stars.changed = false;
    if fired {
        let count = stars.value as usize;
        let bodies = spawn_stars(count, rng);
        registry.replace_all(bodies);
        stars.last_generated_baseline = stars.value;
    }
    fired
}

/// Minimum separation: any two distinct bodies of one generation pass
/// stand at least `min_sep` apart, because a candidate is only accepted
/// when it keeps that distance from everything accepted before it.
pub proof fn lemma_generate_min_separation(
    n: nat,
    count: int,
    arm_count: int,
    min_sep: int,
    seed: u64,
)
    ensures
        spec_pairwise_separated(spec_generate_upto(n, count, arm_count, min_sep, seed).0, min_sep),
    decreases n,
{
    if n == 0 {
    } else {
        lemma_generate_min_separation((n - 1) as nat, count, arm_count, min_sep, seed);
        let prev = spec_generate_upto((n - 1) as nat, count, arm_count, min_sep, seed).0;
        let bodies = spec_generate_upto(n, count, arm_count, min_sep, seed).0;
        if bodies.len() == prev.len() + 1 {
            let c = bodies[prev.len() as int].position;
            assert(spec_far_from_all(prev, c, min_sep));
            assert forall|j: int, k: int|
                0 <= j < bodies.len() && 0 <= k < bodies.len() && j != k implies #[trigger] spec_dist_sq(
                bodies[j].position,
                bodies[k].position,
            ) >= min_sep * min_sep by {
                let nl = prev.len() as int;
                if j < nl && k < nl {
                    assert(spec_dist_sq(prev[j].position, prev[k].position) >= min_sep * min_sep);
                } else if j == nl {
                    assert(spec_dist_sq(prev[k].position, c) >= min_sep * min_sep);
                    lemma_dist_sq_sym(prev[k].position, c);
                } else {
                    assert(spec_dist_sq(prev[j].position, c) >= min_sep * min_sep);
                }
            }
        }
    }
}

/// One seed and one parameter set admit exactly one generated layout:
/// two results of the same pass are equal element for element.
pub proof fn lemma_generate_deterministic(
    r1: Seq<CelestialBody>,
    r2: Seq<CelestialBody>,
    count: nat,
    arm_count: int,
    min_sep: int,
    seed: u64,
)
    requires
        r1 == spec_generate_upto(count, count as int, arm_count, min_sep, seed).0,
        r2 == spec_generate_upto(count, count as int, arm_count, min_sep, seed).0,
    ensures
        r1 == r2,
{
}

} // verus!
