//! The entities of the simulation and the fixed-point geometry they share.
//!
//! A coordinate is an `i64` counting milli-units: 1000 is one world unit.
//! Durations are whole milliseconds. Keeping everything integral lets every
//! contract state results exactly.

use vstd::prelude::*;

verus! {

/// Bound on any coordinate handed to the distance computation; far wider
/// than anything the simulation produces, and small enough that a squared
/// distance fits an `i128`.
pub const COORD_ABS_MAX: i64 = 1_000_000_000_000_000_000;

/// Bound on the coordinates of comets fed to the movement system; one tick
/// of movement from here stays far inside `COORD_ABS_MAX`.
pub const COMET_COORD_MAX: i64 = 1_000_000_000_000_000;

/// Bound on a comet's direction components (milli-units; unit-free).
pub const DIR_ABS_MAX: i64 = 10_000;

/// Bound on a comet's speed (milli-units per second).
pub const SPEED_MAX: i64 = 10_000_000;

/// Bound on the tick duration (milliseconds).
pub const DT_MAX_MS: u64 = 60_000;

/// Speed given to every comet at spawn (milli-units per second): 50 units/s.
pub const COMET_SPEED: i64 = 50_000;

/// Hit radius of a click, in milli-units: 50 units.
pub const HIT_RADIUS: i64 = 50_000;

/// How long an explosion lives, in milliseconds.
pub const EXPLOSION_LIFETIME_MS: u64 = 100;

/// A 2-D point or vector in milli-units.
#[derive(Clone, Copy, PartialEq, Eq, Structural, Debug)]
pub struct Position {
    pub x: i64,
    pub y: i64,
}

/// The visual kind of a generated body, drawn uniformly at generation time.
#[derive(Clone, Copy, PartialEq, Eq, Structural, Debug)]
pub enum BodyKind {
    Barren,
    Ice,
    Lava,
    Terran,
}

/// A star or planet placed by the spiral generator. `size` is a sprite
/// scale in milli-units, drawn from `200..5900`.
#[derive(Clone, Copy, PartialEq, Eq, Structural, Debug)]
pub struct CelestialBody {
    pub position: Position,
    pub kind: BodyKind,
    pub size: i64,
}

/// A comet: a position, an unnormalised heading (its magnitude scales the
/// effective speed, deliberately), and a speed in milli-units per second.
#[derive(Clone, Copy, PartialEq, Eq, Structural, Debug)]
pub struct Comet {
    pub position: Position,
    pub direction: Position,
    pub speed: i64,
}

impl Comet {
    /// Bounds that hold from spawn on; direction and speed never change.
    pub open spec fn wf(self) -> bool {
        &&& -DIR_ABS_MAX <= self.direction.x <= DIR_ABS_MAX
        &&& -DIR_ABS_MAX <= self.direction.y <= DIR_ABS_MAX
        &&& 0 <= self.speed <= SPEED_MAX
    }
}

/// A transient explosion effect: it disappears once `remaining`
/// milliseconds have elapsed.
#[derive(Clone, Copy, PartialEq, Eq, Structural, Debug)]
pub struct Explosion {
    pub position: Position,
    pub remaining: u64,
}

/// Marker for the black hole sprite at the galaxy's centre.
#[derive(Clone, Copy, Debug)]
pub struct BlackHole {}

/// Marker for the text widget that shows the star count and frame rate.
#[derive(Clone, Copy, Debug)]
pub struct StarFpsText {}

/// Squared Euclidean distance between two points, in squared milli-units.
pub open spec fn spec_dist_sq(a: Position, b: Position) -> int {
    (a.x - b.x) * (a.x - b.x) + (a.y - b.y) * (a.y - b.y)
}

/// The squared distance does not depend on the order of its arguments.
pub proof fn lemma_dist_sq_sym(a: Position, b: Position)
    ensures
        spec_dist_sq(a, b) == spec_dist_sq(b, a),
{
    assert((a.x - b.x) * (a.x - b.x) == (b.x - a.x) * (b.x - a.x)) by (nonlinear_arith);
    assert((a.y - b.y) * (a.y - b.y) == (b.y - a.y) * (b.y - a.y)) by (nonlinear_arith);
}

/// Squared Euclidean distance, computed in `i128` so that no coordinate
/// pair within `COORD_ABS_MAX` can overflow.
pub fn dist_sq(a: Position, b: Position) -> (d: i128)
    requires
        -COORD_ABS_MAX <= a.x <= COORD_ABS_MAX,
        -COORD_ABS_MAX <= a.y <= COORD_ABS_MAX,
        -COORD_ABS_MAX <= b.x <= COORD_ABS_MAX,
        -COORD_ABS_MAX <= b.y <= COORD_ABS_MAX,
    ensures
        d == spec_dist_sq(a, b),
        d >= 0,
{
    let dx: i128 = (a.x as i128) - (b.x as i128);
    let dy: i128 = (a.y as i128) - (b.y as i128);
    assert(dx * dx <= 4_000_000_000_000_000_000_000_000_000_000_000_000 && dx * dx >= 0)
        by (nonlinear_arith)
        requires -2_000_000_000_000_000_000 <= dx <= 2_000_000_000_000_000_000;
    assert(dy * dy <= 4_000_000_000_000_000_000_000_000_000_000_000_000 && dy * dy >= 0)
        by (nonlinear_arith)
        requires -2_000_000_000_000_000_000 <= dy <= 2_000_000_000_000_000_000;
    dx * dx + dy * dy
}

} // verus!
