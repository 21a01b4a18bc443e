//! Comets and explosions: spawning, per-tick linear motion, the click
//! hit-test, and the explosion countdown.
//!
//! A comet advances by `direction * speed * dt` with an unnormalised
//! direction, so the direction's magnitude scales the effective speed —
//! deliberately. A click destroys every comet strictly closer than the
//! hit radius to the clicked point and leaves an explosion behind at the
//! comet's last position; explosions disappear once their countdown runs
//! out. Nothing bounces, wraps or clamps.

use vstd::prelude::*;
use vstd::arithmetic::div_mod::lemma_div_is_ordered;
use vstd::arithmetic::div_mod::lemma_div_pos_is_pos;

use crate::components::COMET_COORD_MAX;
use crate::components::COMET_SPEED;
use crate::components::COORD_ABS_MAX;
use crate::components::Comet;
use crate::components::DIR_ABS_MAX;
use crate::components::DT_MAX_MS;
use crate::components::EXPLOSION_LIFETIME_MS;
use crate::components::Explosion;
use crate::components::HIT_RADIUS;
use crate::components::Position;
use crate::components::SPEED_MAX;
use crate::components::dist_sq;
use crate::components::spec_dist_sq;
use crate::rng::StarRng;
use crate::rng::spec_advance_n;
use crate::rng::spec_rng_advance;
use crate::rng::spec_rng_value;

verus! {

/// Largest displacement one tick can produce along one axis, given the
/// direction, speed and tick-length bounds.
pub const DELTA_ABS_MAX: i64 = 6_000_000_000;

/// One axis of the displacement `d * speed * dt / 1_000_000`, rounded
/// towards zero (the division removes the milli scales of direction and
/// speed and the millisecond scale of `dt`).
pub open spec fn spec_delta(d: int, speed: int, dt: int) -> int {
    if d >= 0 {
        (d * speed * dt) / 1_000_000
    } else {
        -(((-d) * speed * dt) / 1_000_000)
    }
}

/// Where one comet stands after a tick of `dt` milliseconds: the position
/// advances linearly, direction and speed never change.
pub open spec fn spec_comet_moved(c: Comet, dt: int) -> Comet {
    Comet {
        position: Position {
            x: (c.position.x + spec_delta(c.direction.x as int, c.speed as int, dt)) as i64,
            y: (c.position.y + spec_delta(c.direction.y as int, c.speed as int, dt)) as i64,
        },
        direction: c.direction,
        speed: c.speed,
    }
}

/// All comets after one tick.
pub open spec fn spec_comets_moved(s: Seq<Comet>, dt: int) -> Seq<Comet> {
    s.map_values(|c: Comet| spec_comet_moved(c, dt))
}

/// The comet's position is far enough from the coordinate bound that one
/// tick of movement cannot overflow.
pub open spec fn spec_comet_in_bounds(c: Comet) -> bool {
    &&& -COMET_COORD_MAX <= c.position.x <= COMET_COORD_MAX
    &&& -COMET_COORD_MAX <= c.position.y <= COMET_COORD_MAX
}

fn scaled_delta(d: i64, speed: i64, dt: u64) -> (r: i64)
    requires
        -DIR_ABS_MAX <= d <= DIR_ABS_MAX,
        0 <= speed <= SPEED_MAX,
        dt <= DT_MAX_MS,
    ensures
        r == spec_delta(d as int, speed as int, dt as int),
        -DELTA_ABS_MAX <= r <= DELTA_ABS_MAX,
{
    let mag: u64 = if d >= 0 {
        d as u64
    } else {
        (-d) as u64
    };
    proof {
        assert(0 <= (mag as int) * (speed as int) <= 100_000_000_000) by (nonlinear_arith)
            requires 0 <= mag <= 10_000 && 0 <= speed <= 10_000_000;
        assert((mag as int) * (speed as int) * (dt as int) <= 6_000_000_000_000_000
            && (mag as int) * (speed as int) * (dt as int) >= 0) by (nonlinear_arith)
            requires 0 <= (mag as int) * (speed as int) <= 100_000_000_000 && 0 <= dt <= 60_000;
    }
    let num: u64 = mag * (speed as u64) * dt;
    proof {
        lemma_div_pos_is_pos(num as int, 1_000_000);
        lemma_div_is_ordered(num as int, 6_000_000_000_000_000, 1_000_000);
    }
    let q: u64 = num / 1_000_000;
    if d >= 0 {
        q as i64
    } else {
        -(q as i64)
    }
}

/// Advances every comet by one tick of `dt_ms` milliseconds.
pub fn comet_movement(comets: &mut Vec<Comet>, dt_ms: u64)
    requires
        dt_ms <= DT_MAX_MS,
        forall|i: int|
            0 <= i < old(comets)@.len() ==> (#[trigger] old(comets)@[i]).wf()
                && spec_comet_in_bounds(old(comets)@[i]),
    ensures
        final(comets)@ == spec_comets_moved(old(comets)@, dt_ms as int),
        final(comets)@.len() == old(comets)@.len(),
        forall|i: int|
            0 <= i < old(comets)@.len() ==> final(comets)@[i] == spec_comet_moved(
                #[trigger] old(comets)@[i],
                dt_ms as int,
            ),
        forall|i: int|
            0 <= i < final(comets)@.len() ==> {
                &&& (#[trigger] final(comets)@[i]).wf()
                &&& -COORD_ABS_MAX <= final(comets)@[i].position.x <= COORD_ABS_MAX
                &&& -COORD_ABS_MAX <= final(comets)@[i].position.y <= COORD_ABS_MAX
            },
{
    let ghost src = comets@;
    let n = comets.len();
    let mut out: Vec<Comet> = Vec::new();
    let mut i: usize = 0;
    while i < n
        invariant
            i <= n,
            n == src.len(),
            comets@ == src,
            dt_ms <= DT_MAX_MS,
            forall|l: int|
                0 <= l < src.len() ==> (#[trigger] src[l]).wf() && spec_comet_in_bounds(src[l]),
            out@.len() == i,
            forall|l: int|
                0 <= l < i ==> out@[l] == spec_comet_moved(#[trigger] src[l], dt_ms as int),
            forall|l: int|
                0 <= l < i ==> {
                    &&& (#[trigger] out@[l]).wf()
                    &&& -COORD_ABS_MAX <= out@[l].position.x <= COORD_ABS_MAX
                    &&& -COORD_ABS_MAX <= out@[l].position.y <= COORD_ABS_MAX
                },
        decreases n - i,
    {
        let c = comets[i];
        let dx = scaled_delta(c.direction.x, c.speed, dt_ms);
        let dy = scaled_delta(c.direction.y, c.speed, dt_ms);
        let moved = Comet {
            position: Position { x: c.position.x + dx, y: c.position.y + dy },
            direction: c.direction,
            speed: c.speed,
        };
        out.push(moved);
        i += 1;
    }
    proof {
        assert(out@ =~= spec_comets_moved(src, dt_ms as int));
    }
    *comets = out;
}

/// Whether a click at `p` destroys the comet: strictly closer than the
/// hit radius.
pub open spec fn spec_comet_hit(c: Comet, p: Position) -> bool {
    spec_dist_sq(c.position, p) < HIT_RADIUS * HIT_RADIUS
}

/// The comets a click at `p` leaves alive, in the order they stood.
pub open spec fn spec_surviving_comets(s: Seq<Comet>, p: Position) -> Seq<Comet>
    decreases s.len(),
{
    if s.len() == 0 {
        Seq::<Comet>::empty()
    } else {
        let rest = spec_surviving_comets(s.drop_last(), p);
        if spec_comet_hit(s.last(), p) {
            rest
        } else {
            rest.push(s.last())
        }
    }
}

/// The explosions a click at `p` spawns: one per destroyed comet, at the
/// comet's last position, in the comets' order.
pub open spec fn spec_explosions_spawned(s: Seq<Comet>, p: Position) -> Seq<Explosion>
    decreases s.len(),
{
    if s.len() == 0 {
        Seq::<Explosion>::empty()
    } else {
        let rest = spec_explosions_spawned(s.drop_last(), p);
        if spec_comet_hit(s.last(), p) {
            rest.push(
                Explosion { position: s.last().position, remaining: EXPLOSION_LIFETIME_MS },
            )
        } else {
            rest
        }
    }
}

/// A fresh explosion at the given position, with the full countdown.
pub fn spawn_explosion(position: Position) -> (e: Explosion)
    ensures
        e.position == position,
        e.remaining == EXPLOSION_LIFETIME_MS,
{
    Explosion { position, remaining: EXPLOSION_LIFETIME_MS }
}

/// One edge-triggered click: with no valid projection nothing happens;
/// with a projected point every comet strictly inside the hit radius is
/// destroyed — a comet at exactly the radius survives — and leaves an
/// explosion at its last position.
pub fn click_to_explode(
    comets: &mut Vec<Comet>,
    explosions: &mut Vec<Explosion>,
    click: Option<Position>,
)
    requires
        forall|i: int|
            0 <= i < old(comets)@.len() ==> {
                &&& -COORD_ABS_MAX <= (#[trigger] old(comets)@[i]).position.x <= COORD_ABS_MAX
                &&& -COORD_ABS_MAX <= old(comets)@[i].position.y <= COORD_ABS_MAX
            },
        (match click {
            Some(p) => -COORD_ABS_MAX <= p.x <= COORD_ABS_MAX && -COORD_ABS_MAX <= p.y
                <= COORD_ABS_MAX,
            None => true,
        }),
    ensures
        (match click {
            None => final(comets)@ == old(comets)@ && final(explosions)@ == old(explosions)@,
            Some(p) => final(comets)@ == spec_surviving_comets(old(comets)@, p)
                && final(explosions)@ == old(explosions)@ + spec_explosions_spawned(
                old(comets)@,
                p,
            ),
        }),
{
    match click {
        None => {},
        Some(p) => {
            let ghost src = comets@;
            let ghost expl0 = explosions@;
            let hit_sq: i128 = (HIT_RADIUS as i128) * (HIT_RADIUS as i128);
            let n = comets.len();
            let mut survivors: Vec<Comet> = Vec::new();
            let mut i: usize = 0;
            proof {
                assert(src.take(0) =~= Seq::<Comet>::empty());
                assert(survivors@ =~= spec_surviving_comets(src.take(0), p));
                assert(explosions@ =~= expl0 + spec_explosions_spawned(src.take(0), p));
            }
            while i < n
                invariant
                    i <= n,
                    n == src.len(),
                    comets@ == src,
                    hit_sq == HIT_RADIUS * HIT_RADIUS,
                    -COORD_ABS_MAX <= p.x <= COORD_ABS_MAX,
                    -COORD_ABS_MAX <= p.y <= COORD_ABS_MAX,
                    forall|l: int|
                        0 <= l < src.len() ==> {
                            &&& -COORD_ABS_MAX <= (#[trigger] src[l]).position.x <= COORD_ABS_MAX
                            &&& -COORD_ABS_MAX <= src[l].position.y <= COORD_ABS_MAX
                        },
                    survivors@ == spec_surviving_comets(src.take(i as int), p),
                    explosions@ == expl0 + spec_explosions_spawned(src.take(i as int), p),
                decreases n - i,
            {
                let c = comets[i];
                let d = dist_sq(c.position, p);
                proof {
                    assert(src.take(i as int + 1).drop_last() =~= src.take(i as int));
                    assert(src.take(i as int + 1).last() == src[i as int]);
                }
                if d < hit_sq {
                    explosions.push(spawn_explosion(c.position));
                } else {
                    survivors.push(c);
                }
                i += 1;
            }
            proof {
                assert(src.take(n as int) =~= src);
            }
            *comets = survivors;
        },
    }
}

/// The explosions still alive after a tick of `dt` milliseconds, each
/// with its countdown reduced; one whose countdown would reach zero or
/// less is gone.
pub open spec fn spec_explosions_after(s: Seq<Explosion>, dt: int) -> Seq<Explosion>
    decreases s.len(),
{
    if s.len() == 0 {
        Seq::<Explosion>::empty()
    } else {
        let rest = spec_explosions_after(s.drop_last(), dt);
        let e = s.last();
        if e.remaining > dt {
            rest.push(Explosion { position: e.position, remaining: (e.remaining - dt) as u64 })
        } else {
            rest
        }
    }
}

/// Counts every explosion down by `dt_ms` and removes the expired ones.
pub fn explosion_cleanup(explosions: &mut Vec<Explosion>, dt_ms: u64)
    ensures
        final(explosions)@ == spec_explosions_after(old(explosions)@, dt_ms as int),
{
    let ghost src = explosions@;
    let n = explosions.len();
    let mut out: Vec<Explosion> = Vec::new();
    let mut i: usize = 0;
    proof {
        assert(src.take(0) =~= Seq::<Explosion>::empty());
        assert(out@ =~= spec_explosions_after(src.take(0), dt_ms as int));
    }
    while i < n
        invariant
            i <= n,
            n == src.len(),
            explosions@ == src,
            out@ == spec_explosions_after(src.take(i as int), dt_ms as int),
        decreases n - i,
    {
        let e = explosions[i];
        proof {
            assert(src.take(i as int + 1).drop_last() =~= src.take(i as int));
            assert(src.take(i as int + 1).last() == src[i as int]);
        }
        if e.remaining > dt_ms {
            out.push(Explosion { position: e.position, remaining: e.remaining - dt_ms });
        }
        i += 1;
    }
    proof {
        assert(src.take(n as int) =~= src);
    }
    *explosions = out;
}

/// Where the comet spawned from generator state `s` starts and heads:
/// two draws place it at a negated fraction of the window size, two more
/// give the unnormalised direction, and the speed is fixed.
pub open spec fn spec_comet_spawned(s: u64, width: int, height: int) -> Comet {
    let rx = spec_rng_value(s) % 1000;
    let s1 = spec_rng_advance(s);
    let ry = spec_rng_value(s1) % 1000;
    let s2 = spec_rng_advance(s1);
    let dx = spec_rng_value(s2) % 1000;
    let s3 = spec_rng_advance(s2);
    let dy = spec_rng_value(s3) % 1000;
    Comet {
        position: Position {
            x: (-((rx * width) / 1000)) as i64,
            y: (-((ry * height) / 1000)) as i64,
        },
        direction: Position { x: dx as i64, y: dy as i64 },
        speed: COMET_SPEED,
    }
}

fn spawn_one_comet(rng: &mut StarRng, width: i64, height: i64) -> (c: Comet)
    requires
        0 <= width <= 10_000_000,
        0 <= height <= 10_000_000,
    ensures
        c == spec_comet_spawned(old(rng).state, width as int, height as int),
        final(rng).state == spec_advance_n(old(rng).state, 4),
        c.wf(),
        spec_comet_in_bounds(c),
{
    proof {
        reveal_with_fuel(spec_advance_n, 5);
    }
    let rx = rng.next_below(1000);
    let ry = rng.next_below(1000);
    let dx = rng.next_below(1000);
    let dy = rng.next_below(1000);
    proof {
        assert(0 <= (rx as int) * (width as int) <= 10_000_000_000) by (nonlinear_arith)
            requires 0 <= rx < 1000 && 0 <= width <= 10_000_000;
        assert(0 <= (ry as int) * (height as int) <= 10_000_000_000) by (nonlinear_arith)
            requires 0 <= ry < 1000 && 0 <= height <= 10_000_000;
        lemma_div_pos_is_pos((rx * (width as u64)) as int, 1000);
        lemma_div_is_ordered((rx * (width as u64)) as int, 10_000_000_000, 1000);
        lemma_div_pos_is_pos((ry * (height as u64)) as int, 1000);
        lemma_div_is_ordered((ry * (height as u64)) as int, 10_000_000_000, 1000);
    }
    let px: i64 = -(((rx * (width as u64)) / 1000) as i64);
    let py: i64 = -(((ry * (height as u64)) / 1000) as i64);
    Comet {
        position: Position { x: px, y: py },
        direction: Position { x: dx as i64, y: dy as i64 },
        speed: COMET_SPEED,
    }
}

/// The startup comet set: three comets spawned in a row from the shared
/// generator, each placed and headed by its own four draws.
pub fn spawn_comets(rng: &mut StarRng, width: i64, height: i64) -> (comets: Vec<Comet>)
    requires
        0 <= width <= 10_000_000,
        0 <= height <= 10_000_000,
    ensures
        comets@.len() == 3,
        comets@[0] == spec_comet_spawned(old(rng).state, width as int, height as int),
        comets@[1] == spec_comet_spawned(
            spec_advance_n(old(rng).state, 4),
            width as int,
            height as int,
        ),
        comets@[2] == spec_comet_spawned(
            spec_advance_n(old(rng).state, 8),
            width as int,
            height as int,
        ),
        final(rng).state == spec_advance_n(old(rng).state, 12),
        forall|i: int|
            0 <= i < comets@.len() ==> (#[trigger] comets@[i]).wf() && spec_comet_in_bounds(
                comets@[i],
            ),
{
    let ghost s0 = rng.state;
    let c0 = spawn_one_comet(rng, width, height);
    let c1 = spawn_one_comet(rng, width, height);
    let c2 = spawn_one_comet(rng, width, height);
    proof {
        crate::rng::lemma_advance_n_add(s0, 4, 4);
        crate::rng::lemma_advance_n_add(s0, 8, 4);
    }
    let mut comets: Vec<Comet> = Vec::new();
    comets.push(c0);
    comets.push(c1);
    comets.push(c2);
    comets
}

} // verus!
