//! Obstacles orbiting the planet's rim: their angular motion, their placement
//! in the world, and how a fresh planet is populated — scripted per variant in
//! story mode, randomly with minimum-gap adjustment in infinite mode.

use vstd::prelude::*;

verus! {

use crate::{FRAME_LIMIT_MS, FULL_TURN, Point2, TRIG_UNIT};
use crate::geom::{mul_div_trunc, scale_ratio};
use crate::planet::{PLANET_START_RADIUS, per_frame};
use crate::rng::{draw_bool, draw_in_range, fresh_rng};
use crate::trig;
use crate::variant::PlanetVariant;

/// Radius of an obstacle's collider, in milli-pixels.
pub const OBSTACLE_RADIUS: i64 = 26_000;

/// Half an obstacle sprite's size, in milli-pixels; obstacles sit this far
/// beyond the planet's rim.
pub const OBSTACLE_HALF_SIZE: i64 = 32_000;

/// How fast obstacles orbit, in milli-degrees per second.
pub const OBSTACLE_MOVEMENT_SPEED: i64 = 114_592;

/// Most obstacles a random layout may hold.
pub const OBSTACLES_MAX_NUM: i64 = 7;

/// Angular gaps below this, in milli-degrees, count as close and are widened
/// by a small random offset.
pub const OBSTACLE_CLOSE_GAP_MAX: i64 = 15_000;

/// Least offset applied to a long-but-not-close gap, in milli-degrees.
pub const OBSTACLE_LONG_GAP_MIN: i64 = 40_000;

/// Angular gaps below this (and not close), in milli-degrees, are widened by
/// a large random offset.
pub const OBSTACLE_LONG_GAP_MAX: i64 = 80_000;

/// Upper end of the arc random base angles avoid, in milli-degrees.
pub const OBSTACLE_MAX_ANGLE_GENERATION: i64 = 180_000;

/// Lower end of the arc random base angles avoid, in milli-degrees.
pub const OBSTACLE_MIN_ANGLE_GENERATION: i64 = 45_000;

/// Least angle a gap adjustment can produce, in milli-degrees.
pub const OBSTACLE_ANGLE_FLOOR: i64 = -80_000;

/// An obstacle on the planet's rim, placed by its angle in milli-degrees.
#[derive(Clone, Copy, PartialEq, Eq, Structural, Debug)]
pub struct Obstacle {
    pub angle: i64,
}

impl Obstacle {
    /// Well-formedness: the angle stays within one full turn of zero.
    pub open spec fn wf(self) -> bool {
        -FULL_TURN <= self.angle <= FULL_TURN
    }
}

/// An obstacle's angle after one frame of orbiting: it decreases at the
/// orbit speed and wraps modulo a full turn.
pub open spec fn orbit_step_spec(angle: int, dt_ms: int) -> int {
    (angle - per_frame(OBSTACLE_MOVEMENT_SPEED as int, dt_ms)) % (FULL_TURN as int)
}

/// Advances every obstacle's orbit by one frame.
pub fn move_obstacles_on_planet(obstacles: &mut Vec<Obstacle>, dt_ms: i64)
    requires
        0 <= dt_ms <= FRAME_LIMIT_MS,
        forall|i: int| 0 <= i < old(obstacles)@.len() ==> (#[trigger] old(obstacles)@[i]).wf(),
    ensures
        final(obstacles)@.len() == old(obstacles)@.len(),
        forall|i: int|
            0 <= i < old(obstacles)@.len() ==> (#[trigger] final(obstacles)@[i]).angle
                == orbit_step_spec(old(obstacles)@[i].angle as int, dt_ms as int),
        forall|i: int| 0 <= i < final(obstacles)@.len() ==> (#[trigger] final(obstacles)@[i]).wf(),
{
    let n = obstacles.len();
    let step: i64 = (OBSTACLE_MOVEMENT_SPEED * dt_ms) / 1000;
    let mut i: usize = 0;
    while i < n
        invariant
            n == obstacles@.len() == old(obstacles)@.len(),
            0 <= i <= n,
            step == per_frame(OBSTACLE_MOVEMENT_SPEED as int, dt_ms as int),
            0 <= step <= OBSTACLE_MOVEMENT_SPEED,
            forall|j: int| 0 <= j < n ==> (#[trigger] old(obstacles)@[j]).wf(),
            forall|j: int| i <= j < n ==> obstacles@[j] == old(obstacles)@[j],
            forall|j: int|
                0 <= j < i ==> (#[trigger] obstacles@[j]).angle == orbit_step_spec(
                    old(obstacles)@[j].angle as int,
                    dt_ms as int,
                ),
            forall|j: int| 0 <= j < i ==> (#[trigger] obstacles@[j]).wf(),
        decreases n - i,
    {
        let a: i64 = trig::norm_angle(obstacles[i].angle - step);
        obstacles[i] = Obstacle { angle: a };
        i = i + 1;
    }
}

/// X coordinate of the obstacle at `angle` on the rim of the planet at
/// `planet_pos` with radius `planet_radius`.
pub open spec fn obstacle_pos_x(planet_pos: Point2, planet_radius: int, angle: int) -> int {
    planet_pos.x + mul_div_trunc(trig::cosine_spec(angle), planet_radius + OBSTACLE_HALF_SIZE,
    TRIG_UNIT as int)
}

/// Y coordinate of the obstacle at `angle` on the rim of the planet at
/// `planet_pos` with radius `planet_radius`.
pub open spec fn obstacle_pos_y(planet_pos: Point2, planet_radius: int, angle: int) -> int {
    planet_pos.y + mul_div_trunc(trig::sine_spec(angle), planet_radius + OBSTACLE_HALF_SIZE,
    TRIG_UNIT as int)
}

/// Places an obstacle in the world: on the circle one obstacle half-size
/// beyond the planet's rim, in the direction of its angle.
pub fn obstacle_position(planet_pos: Point2, planet_radius: i64, angle: i64) -> (pos: Point2)
    requires
        -FULL_TURN <= angle <= FULL_TURN,
        0 <= planet_radius <= PLANET_START_RADIUS,
        -crate::COORD_LIMIT + PLANET_START_RADIUS + OBSTACLE_HALF_SIZE <= planet_pos.x,
        planet_pos.x <= crate::COORD_LIMIT - PLANET_START_RADIUS - OBSTACLE_HALF_SIZE,
        -crate::COORD_LIMIT + PLANET_START_RADIUS + OBSTACLE_HALF_SIZE <= planet_pos.y,
        planet_pos.y <= crate::COORD_LIMIT - PLANET_START_RADIUS - OBSTACLE_HALF_SIZE,
    ensures
        pos.x == obstacle_pos_x(planet_pos, planet_radius as int, angle as int),
        pos.y == obstacle_pos_y(planet_pos, planet_radius as int, angle as int),
        crate::in_world(pos),
{
    let rim: i64 = planet_radius + OBSTACLE_HALF_SIZE;
    let c = trig::cosine(angle);
    let s = trig::sine(angle);
    proof {
        assert(c * rim <= i64::MAX && (-c) * rim <= i64::MAX && s * rim <= i64::MAX && (-s) * rim
            <= i64::MAX) by (nonlinear_arith)
            requires
                -TRIG_UNIT <= c <= TRIG_UNIT,
                -TRIG_UNIT <= s <= TRIG_UNIT,
                0 <= rim <= PLANET_START_RADIUS + OBSTACLE_HALF_SIZE,
        ;
    }
    let ox = scale_ratio(c, rim, TRIG_UNIT);
    let oy = scale_ratio(s, rim, TRIG_UNIT);
    proof {
        lemma_rim_offset_bounded(c as int, rim as int);
        lemma_rim_offset_bounded(s as int, rim as int);
    }
    Point2 { x: planet_pos.x + ox, y: planet_pos.y + oy }
}

/// A rim offset scaled down by the trig unit is no longer than the rim
/// distance itself.
proof fn lemma_rim_offset_bounded(c: int, rim: int)
    requires
        -TRIG_UNIT <= c <= TRIG_UNIT,
        0 <= rim,
    ensures
        -rim <= mul_div_trunc(c, rim, TRIG_UNIT as int) <= rim,
{
    if c >= 0 {
        assert(c * rim <= TRIG_UNIT * rim) by (nonlinear_arith)
            requires
                0 <= c <= TRIG_UNIT,
                rim >= 0,
        ;
        vstd::arithmetic::div_mod::lemma_div_is_ordered(c * rim, TRIG_UNIT * rim,
        TRIG_UNIT as int);
        vstd::arithmetic::div_mod::lemma_div_multiples_vanish(rim, TRIG_UNIT as int);
        vstd::arithmetic::div_mod::lemma_div_pos_is_pos(c * rim, TRIG_UNIT as int);
        assert(c * rim >= 0) by (nonlinear_arith)
            requires
                c >= 0,
                rim >= 0,
        ;
    } else {
        assert(-c * rim <= TRIG_UNIT * rim) by (nonlinear_arith)
            requires
                0 <= -c <= TRIG_UNIT,
                rim >= 0,
        ;
        vstd::arithmetic::div_mod::lemma_div_is_ordered(-c * rim, TRIG_UNIT * rim,
        TRIG_UNIT as int);
        vstd::arithmetic::div_mod::lemma_div_multiples_vanish(rim, TRIG_UNIT as int);
        vstd::arithmetic::div_mod::lemma_div_pos_is_pos(-c * rim, TRIG_UNIT as int);
        assert(-c * rim >= 0) by (nonlinear_arith)
            requires
                c < 0,
                rim >= 0,
        ;
    }
}

/// The absolute value of an angle difference.
pub open spec fn abs_val(x: int) -> int {
    if x >= 0 {
        x
    } else {
        -x
    }
}

/// The gap-adjusted angle: a base angle too close to the previous obstacle's
/// is pulled back by the small offset; one within the long-gap range is
/// pulled back by the large offset; a first obstacle (previous angle zero) is
/// left alone.
pub open spec fn gap_adjusted_spec(base: int, last: int, close_off: int, long_off: int) -> int {
    if last != 0 && abs_val(base - last) < OBSTACLE_CLOSE_GAP_MAX {
        base - close_off
    } else if last != 0 && abs_val(base - last) < OBSTACLE_LONG_GAP_MAX {
        base - long_off
    } else {
        base
    }
}

/// Applies the minimum-gap rule to a freshly drawn base angle, given the
/// previous obstacle's angle and the two random offsets.
pub fn gap_adjusted_angle(base: i64, last: i64, close_off: i64, long_off: i64) -> (r: i64)
    requires
        0 <= base <= FULL_TURN,
        OBSTACLE_ANGLE_FLOOR <= last <= FULL_TURN,
        0 <= close_off < OBSTACLE_CLOSE_GAP_MAX,
        OBSTACLE_LONG_GAP_MIN <= long_off < OBSTACLE_LONG_GAP_MAX,
    ensures
        r == gap_adjusted_spec(base as int, last as int, close_off as int, long_off as int),
        OBSTACLE_ANGLE_FLOOR <= r <= FULL_TURN,
{
    if last != 0 {
        let diff = base - last;
        let mag = if diff >= 0 {
            diff
        } else {
            -diff
        };
        if mag < OBSTACLE_CLOSE_GAP_MAX {
            return base - close_off;
        }
        if mag < OBSTACLE_LONG_GAP_MAX {
            return base - long_off;
        }
    }
    base
}

/// Whether `base` lies on one of the two arcs random base angles are drawn
/// from: up to the minimum generation angle, or from the maximum generation
/// angle to a full turn.
pub open spec fn admissible_base(base: int) -> bool {
    0 <= base <= OBSTACLE_MIN_ANGLE_GENERATION || OBSTACLE_MAX_ANGLE_GENERATION <= base
        <= FULL_TURN
}

/// Whether `angle` is one that the random generator can place after an
/// obstacle at `prev`: the gap adjustment of some admissible base angle with
/// offsets from the two drawing ranges.
pub open spec fn follows_gap_rule(prev: int, angle: int) -> bool {
    exists|base: int, close_off: int, long_off: int|
        {
            &&& admissible_base(base)
            &&& 0 <= close_off < OBSTACLE_CLOSE_GAP_MAX
            &&& OBSTACLE_LONG_GAP_MIN <= long_off < OBSTACLE_LONG_GAP_MAX
            &&& angle == #[trigger] gap_adjusted_spec(base, prev, close_off, long_off)
        }
}

/// The angle of the obstacle placed before index `i`; zero before the first.
pub open spec fn prev_angle(obstacles: Seq<Obstacle>, i: int) -> int {
    if i == 0 {
        0
    } else {
        obstacles[i - 1].angle as int
    }
}

/// A freshly drawn base angle for a random obstacle: either on the short arc
/// up to the minimum generation angle, or on the long arc from the maximum
/// generation angle to a full turn.
pub(crate) fn draw_base_angle(rng: &mut rand::rngs::ThreadRng) -> (base: i64)
    ensures
        admissible_base(base as int),
{
    if draw_bool(rng) {
        draw_in_range(rng, 0, OBSTACLE_MIN_ANGLE_GENERATION)
    } else {
        draw_in_range(rng, OBSTACLE_MAX_ANGLE_GENERATION, FULL_TURN)
    }
}

/// Populates a fresh planet with obstacles. In story mode the layout is the
/// variant's script; in infinite mode between one and `OBSTACLES_MAX_NUM`
/// obstacles are drawn at random angles, each widened away from the previous
/// one by the minimum-gap rule.
pub fn spawn_obstacles(variant: PlanetVariant, infinite_mode: bool) -> (obstacles: Vec<Obstacle>)
    ensures
        !infinite_mode ==> {
            &&& obstacles@.len() == variant.obstacle_angles_spec().len()
            &&& forall|i: int|
                0 <= i < obstacles@.len() ==> (#[trigger] obstacles@[i]).angle
                    == variant.obstacle_angles_spec()[i]
        },
        infinite_mode ==> 1 <= obstacles@.len() <= OBSTACLES_MAX_NUM,
        infinite_mode ==> forall|i: int|
            0 <= i < obstacles@.len() ==> OBSTACLE_ANGLE_FLOOR <= (#[trigger] obstacles@[i]).angle
                <= FULL_TURN,
        infinite_mode ==> forall|i: int|
            0 <= i < obstacles@.len() ==> follows_gap_rule(
                prev_angle(obstacles@, i),
                (#[trigger] obstacles@[i]).angle as int,
            ),
        forall|i: int| 0 <= i < obstacles@.len() ==> (#[trigger] obstacles@[i]).wf(),
{
    let mut obstacles: Vec<Obstacle> = Vec::new();
    if !infinite_mode {
        let angles = variant.get_obstacles();
        proof {
            crate::variant::lemma_obstacle_angles_well_formed(variant);
        }
        let n = angles.len();
        let mut i: usize = 0;
        while i < n
            invariant
                n == angles@.len(),
                angles@ == variant.obstacle_angles_spec(),
                0 <= i <= n,
                obstacles@.len() == i,
                forall|j: int|
                    0 <= j < i ==> (#[trigger] obstacles@[j]).angle
                        == variant.obstacle_angles_spec()[j],
                forall|j: int| 0 <= j < i ==> (#[trigger] obstacles@[j]).wf(),
                forall|j: int|
                    0 <= j < n ==> 0 <= #[trigger] variant.obstacle_angles_spec()[j] < FULL_TURN,
            decreases n - i,
        {
            obstacles.push(Obstacle { angle: angles[i] });
            i = i + 1;
        }
        obstacles
    } else {
        let mut rng = fresh_rng();
        let count = draw_in_range(&mut rng, 1, OBSTACLES_MAX_NUM);
        let mut last: i64 = 0;
        let mut i: i64 = 0;
        while i < count
            invariant
                1 <= count <= OBSTACLES_MAX_NUM,
                0 <= i <= count,
                obstacles@.len() == i,
                OBSTACLE_ANGLE_FLOOR <= last <= FULL_TURN,
                last == prev_angle(obstacles@, i as int),
                forall|j: int|
                    0 <= j < i ==> OBSTACLE_ANGLE_FLOOR <= (#[trigger] obstacles@[j]).angle
                        <= FULL_TURN,
                forall|j: int|
                    0 <= j < i ==> follows_gap_rule(
                        prev_angle(obstacles@, j),
                        (#[trigger] obstacles@[j]).angle as int,
                    ),
                forall|j: int| 0 <= j < i ==> (#[trigger] obstacles@[j]).wf(),
            decreases count - i,
        {
            let base = draw_base_angle(&mut rng);
            let close_off = draw_in_range(&mut rng, 0, OBSTACLE_CLOSE_GAP_MAX - 1);
            let long_off = draw_in_range(&mut rng, OBSTACLE_LONG_GAP_MIN, OBSTACLE_LONG_GAP_MAX - 1);
            let angle = gap_adjusted_angle(base, last, close_off, long_off);
            proof {
                assert(angle == gap_adjusted_spec(base as int, last as int, close_off as int,
                long_off as int));
                assert(follows_gap_rule(last as int, angle as int));
            }
            obstacles.push(Obstacle { angle });
            last = angle;
            i = i + 1;
        }
        obstacles
    }
}

} // verus!
