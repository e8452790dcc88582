//! The ant agent: its state machine, per-tick steering decision,
//! and movement integration.
//!
//! An ant is always either `Foraging` or `ReturningHome`; it flips
//! to `ReturningHome` exactly when it collides with a food item and
//! back to `Foraging` exactly when, carrying food, it reaches its
//! own colony's footprint. Steering follows the strongest sensor
//! when any signal is above threshold and otherwise falls back to a
//! bounded, momentum-preserving random walk.

use vstd::prelude::*;
use crate::geometry::{Vec2i, Rect, pos_in_bounds, overlaps, collide, clamp_int, tdiv_1000,
    tdiv_1m, sin_milli_spec, cos_milli_spec, sin_milli, cos_milli, norm_heading_spec, norm_heading,
    clamp_coord, FULL_TURN_MDEG, POS_LIMIT};
use crate::sensor::{Sensor, SensorPosition, SENSOR_ANGLE_MDEG};
use crate::stimulant::Food;
use crate::rng::{RandomStream, draw_map};

verus! {

/// Linear speed of every ant, in milli-units per second.
pub const ANT_MOVESPEED: i64 = 20_000;

/// Half-extent of an ant's body footprint, in milli-units.
pub const ANT_HALF: i64 = 5_000;

/// Largest magnitude of the persistent random-walk rotation bias,
/// in millidegrees per second.
pub const ROTATION_BIAS_LIMIT: i64 = 45_000;

/// Range of one uniformly drawn random-walk delta, in millidegrees
/// per second.
pub const WALK_DELTA_RANGE: i64 = 50_000;

/// Sensor intensity must exceed this for trail-following steering.
pub const SIGNAL_THRESHOLD: i64 = 0;

/// The two phases of the forage/return cycle.
#[derive(Clone, Copy, PartialEq, Eq, Structural, Debug)]
pub enum AntState {
    Foraging,
    ReturningHome,
}

/// One ant: state flag, owning-colony index, pose, random-walk
/// bias, and its three chemo-sensors.
#[derive(Clone, Copy, PartialEq, Eq, Structural, Debug)]
pub struct Ant {
    pub state: AntState,
    pub colony: usize,
    pub pos: Vec2i,
    pub heading_mdeg: i64,
    pub rotation_bias: i64,
    pub left: Sensor,
    pub right: Sensor,
    pub center: Sensor,
}

impl Ant {
    /// A stored ant: pose in range and each sensor on its mount.
    pub open spec fn wf(self) -> bool {
        &&& 0 <= self.heading_mdeg < FULL_TURN_MDEG
        &&& -ROTATION_BIAS_LIMIT <= self.rotation_bias <= ROTATION_BIAS_LIMIT
        &&& pos_in_bounds(self.pos)
        &&& self.left.positioning == SensorPosition::Left
        &&& self.right.positioning == SensorPosition::Right
        &&& self.center.positioning == SensorPosition::Center
    }

    /// The ant's body footprint.
    pub open spec fn rect_spec(self) -> Rect {
        Rect { center: self.pos, half: Vec2i { x: ANT_HALF, y: ANT_HALF } }
    }

    pub fn rect(&self) -> (r: Rect)
        ensures
            r == self.rect_spec(),
    {
        Rect { center: self.pos, half: Vec2i { x: ANT_HALF, y: ANT_HALF } }
    }

    /// A freshly spawned ant: foraging, unbiased, sensors quiet.
    pub fn new(colony: usize, pos: Vec2i, heading_mdeg: i64) -> (a: Ant)
        requires
            pos_in_bounds(pos),
            0 <= heading_mdeg < FULL_TURN_MDEG,
        ensures
            a.wf(),
            a.state == AntState::Foraging,
            a.colony == colony,
            a.pos == pos,
            a.heading_mdeg == heading_mdeg,
            a.rotation_bias == 0,
            a.left.intensity == 0,
            a.right.intensity == 0,
            a.center.intensity == 0,
    {
        Ant {
            state: AntState::Foraging,
            colony,
            pos,
            heading_mdeg,
            rotation_bias: 0,
            left: Sensor::new(SensorPosition::Left),
            right: Sensor::new(SensorPosition::Right),
            center: Sensor::new(SensorPosition::Center),
        }
    }
}

/// Index of the first food item overlapping the ant's body, in
/// store order; the deterministic pickup tie-break.
pub open spec fn first_food_hit(a: Ant, foods: Seq<Food>) -> Option<int>
    decreases foods.len(),
{
    if foods.len() == 0 {
        Option::None
    } else if overlaps(a.rect_spec(), foods[0].rect_spec()) {
        Option::Some(0int)
    } else {
        match first_food_hit(a, foods.skip(1)) {
            Option::None => Option::None,
            Option::Some(i) => Option::Some(i + 1),
        }
    }
}

/// The first hit, when there is one, is an overlapping item and
/// everything before it misses; when there is none, nothing
/// overlaps.
pub proof fn lemma_first_food_hit(a: Ant, foods: Seq<Food>)
    ensures
        match first_food_hit(a, foods) {
            Option::None => forall|j: int|
                0 <= j < foods.len() ==> !overlaps(a.rect_spec(), (#[trigger] foods[j]).rect_spec()),
            Option::Some(i) => {
                &&& 0 <= i < foods.len()
                &&& overlaps(a.rect_spec(), foods[i].rect_spec())
                &&& forall|j: int|
                    0 <= j < i ==> !overlaps(a.rect_spec(), (#[trigger] foods[j]).rect_spec())
            },
        },
    decreases foods.len(),
{
    if foods.len() > 0 {
        if !overlaps(a.rect_spec(), foods[0].rect_spec()) {
            lemma_first_food_hit(a, foods.skip(1));
            assert(forall|j: int|
                1 <= j < foods.len() ==> #[trigger] foods[j] == foods.skip(1)[j - 1]);
        }
    }
}

/// The pickup step: a foraging ant that overlaps food consumes the
/// first overlapping item and turns for home; any other ant, and
/// the store, stay exactly as they were.
pub open spec fn pickup_spec(a: Ant, foods: Seq<Food>) -> (Ant, Seq<Food>) {
    if a.state == AntState::Foraging {
        match first_food_hit(a, foods) {
            Option::Some(i) => (Ant { state: AntState::ReturningHome, ..a }, foods.remove(i)),
            Option::None => (a, foods),
        }
    } else {
        (a, foods)
    }
}

/// Food detection for one ant: while foraging, the first food item
/// whose footprint overlaps the ant's body is destroyed — exactly
/// one, exactly once — and the ant transitions to `ReturningHome`.
/// The transition happens iff such an overlap was found.
pub fn collide_food(a: &mut Ant, foods: &mut Vec<Food>) -> (picked: bool)
    requires
        old(a).wf(),
        forall|i: int| 0 <= i < old(foods)@.len() ==> (#[trigger] old(foods)@[i]).wf(),
    ensures
        final(a).wf(),
        (*final(a), final(foods)@) == pickup_spec(*old(a), old(foods)@),
        picked == (old(a).state == AntState::Foraging && first_food_hit(*old(a), old(foods)@)
            is Some),
        picked ==> old(a).state == AntState::Foraging && final(a).state
            == AntState::ReturningHome && final(foods)@.len() == old(foods)@.len() - 1,
        !picked ==> *final(a) == *old(a) && final(foods)@ == old(foods)@,
        (final(a).state != old(a).state) == picked,
        forall|i: int| 0 <= i < final(foods)@.len() ==> (#[trigger] final(foods)@[i]).wf(),
{
    proof {
        lemma_first_food_hit(*a, foods@);
    }
    let foraging: bool = match a.state {
        AntState::Foraging => true,
        AntState::ReturningHome => false,
    };
    if !foraging {
        return false;
    }
    let arect: Rect = a.rect();
    let n: usize = foods.len();
    let mut i: usize = 0;
    while i < n
        invariant
            *a == *old(a),
            old(a).state == AntState::Foraging,
            foods@ == old(foods)@,
            n == foods@.len(),
            i <= n,
            arect == a.rect_spec(),
            a.wf(),
            forall|j: int| 0 <= j < n ==> (#[trigger] foods@[j]).wf(),
            forall|j: int|
                0 <= j < i ==> !overlaps(a.rect_spec(), (#[trigger] foods@[j]).rect_spec()),
        decreases n - i,
    {
        let frect: Rect = foods[i].rect();
        if collide(&arect, &frect) {
            proof {
                lemma_first_food_hit(*a, foods@);
                let hit = first_food_hit(*a, foods@);
                assert(hit is Some);
                let k = hit->Some_0;
                assert(!(k < i) && !(i < k));
            }
            foods.remove(i);
            a.state = AntState::ReturningHome;
            proof {
                assert(first_food_hit(*old(a), old(foods)@) == Option::Some(i as int));
                assert forall|k: int| 0 <= k < foods@.len() implies (#[trigger] foods@[k]).wf()
                by {
                    if k < i {
                        assert(foods@[k] == old(foods)@[k]);
                    } else {
                        assert(foods@[k] == old(foods)@[k + 1]);
                    }
                }
            }
            return true;
        }
        i = i + 1;
    }
    proof {
        lemma_first_food_hit(*a, foods@);
        assert(first_food_hit(*a, foods@) is None);
    }
    false
}

/// The sensor that wins the steering decision: the strictly
/// greatest intensity, ties resolved by the fixed priority order
/// Center, then Left, then Right.
pub open spec fn winner_of(l: int, r: int, c: int) -> SensorPosition {
    if c >= l && c >= r {
        SensorPosition::Center
    } else if l >= r {
        SensorPosition::Left
    } else {
        SensorPosition::Right
    }
}

/// The winning sensor's intensity.
pub open spec fn winning_intensity(l: int, r: int, c: int) -> int {
    if c >= l && c >= r {
        c
    } else if l >= r {
        l
    } else {
        r
    }
}

/// Trail-following turn per tick: the sensor mounting angle at
/// three times per second, scaled by the tick duration.
pub open spec fn steer_turn(dt: u64) -> int {
    (SENSOR_ANGLE_MDEG * 3 / 1000) * dt
}

/// Which way the winning sensor steers: left turns are positive.
pub open spec fn turn_of(p: SensorPosition, dt: u64) -> int {
    match p {
        SensorPosition::Left => steer_turn(dt),
        SensorPosition::Right => -steer_turn(dt),
        SensorPosition::Center => 0,
    }
}

/// Random-walk turn per tick: the clamped rotation bias at twice
/// per second, scaled by the tick duration.
pub open spec fn walk_turn(bias: int, dt: u64) -> int {
    tdiv_1000(bias * 2 * dt)
}

/// The steering step for one ant, as a function of its sensor
/// readings, the next raw stream value, and the tick duration; the
/// flag says whether a random value was consumed.
pub open spec fn steer_spec(a: Ant, peek: int, dt: u64) -> (Ant, bool) {
    let l = a.left.intensity as int;
    let r = a.right.intensity as int;
    let c = a.center.intensity as int;
    if winning_intensity(l, r, c) > SIGNAL_THRESHOLD {
        let w = winner_of(l, r, c);
        (
            Ant {
                heading_mdeg: norm_heading_spec(a.heading_mdeg + turn_of(w, dt)) as i64,
                ..a
            },
            false,
        )
    } else {
        let delta = draw_map(peek, -WALK_DELTA_RANGE as int, WALK_DELTA_RANGE as int);
        let nb = clamp_int(
            a.rotation_bias + delta,
            -ROTATION_BIAS_LIMIT as int,
            ROTATION_BIAS_LIMIT as int,
        );
        (
            Ant {
                heading_mdeg: norm_heading_spec(a.heading_mdeg + walk_turn(nb, dt)) as i64,
                rotation_bias: nb as i64,
                ..a
            },
            true,
        )
    }
}

/// Sensor-driven steering with the random-walk fallback: if any
/// sensor is above threshold the ant rotates toward the strongest
/// one (ties: Center, then Left, then Right); otherwise a bounded
/// random delta feeds the persistent rotation bias, the bias is
/// clamped, and the ant rotates by the clamped bias.
pub fn steer_ant(a: &mut Ant, stream: &mut RandomStream, dt: u64) -> (used: bool)
    requires
        old(a).wf(),
        old(stream).wf(),
        dt <= crate::MAX_TICK_MS,
    ensures
        final(a).wf(),
        final(stream).wf(),
        (*final(a), used) == steer_spec(*old(a), old(stream).peek_raw(), dt),
        final(stream).values@ == old(stream).values@,
        final(stream).cursor == if used && old(stream).cursor < old(stream).values@.len() {
            old(stream).cursor + 1
        } else {
            old(stream).cursor as int
        },
        (old(a).left.intensity <= SIGNAL_THRESHOLD && old(a).right.intensity <= SIGNAL_THRESHOLD
            && old(a).center.intensity <= SIGNAL_THRESHOLD) ==> used,
{
    let l: i64 = a.left.intensity;
    let r: i64 = a.right.intensity;
    let c: i64 = a.center.intensity;
    let win: i64 = if c >= l && c >= r {
        c
    } else if l >= r {
        l
    } else {
        r
    };
    if win > SIGNAL_THRESHOLD {
        let turn: i64 = if c >= l && c >= r {
            0
        } else if l >= r {
            (SENSOR_ANGLE_MDEG * 3 / 1000) * (dt as i64)
        } else {
            -((SENSOR_ANGLE_MDEG * 3 / 1000) * (dt as i64))
        };
        a.heading_mdeg = norm_heading(a.heading_mdeg + turn);
        false
    } else {
        let raw: i64 = stream.draw(-WALK_DELTA_RANGE, WALK_DELTA_RANGE);
        let sum: i64 = a.rotation_bias + raw;
        let nb: i64 = if sum < -ROTATION_BIAS_LIMIT {
            -ROTATION_BIAS_LIMIT
        } else if sum > ROTATION_BIAS_LIMIT {
            ROTATION_BIAS_LIMIT
        } else {
            sum
        };
        proof {
            assert(nb >= 0 ==> 0 <= nb * 2 * dt <= 90_000_000) by (nonlinear_arith)
                requires
                    -ROTATION_BIAS_LIMIT <= nb <= ROTATION_BIAS_LIMIT,
                    0 <= dt <= 1000,
            ;
            assert(nb < 0 ==> 0 <= (-nb) * 2 * dt <= 90_000_000) by (nonlinear_arith)
                requires
                    -ROTATION_BIAS_LIMIT <= nb <= ROTATION_BIAS_LIMIT,
                    0 <= dt <= 1000,
            ;
            assert(nb * 2 * dt == -((-nb) * 2 * dt)) by (nonlinear_arith);
        }
        let turn: i64 = if nb >= 0 {
            (nb * 2 * (dt as i64)) / 1000
        } else {
            -(((-nb) * 2 * (dt as i64)) / 1000)
        };
        a.rotation_bias = nb;
        a.heading_mdeg = norm_heading(a.heading_mdeg + turn);
        true
    }
}

/// Position change of one tick of forward motion: the heading's
/// forward unit vector at the fixed linear speed, scaled by the
/// tick duration.
pub open spec fn move_delta_spec(heading: int, dt: u64) -> Vec2i {
    Vec2i {
        x: tdiv_1m(ANT_MOVESPEED * dt * -sin_milli_spec(heading)) as i64,
        y: tdiv_1m(ANT_MOVESPEED * dt * cos_milli_spec(heading)) as i64,
    }
}

/// The movement-integration step: forward motion, clamped to the
/// world bounds.
pub open spec fn integrate_spec(a: Ant, dt: u64) -> Ant {
    let d = move_delta_spec(a.heading_mdeg as int, dt);
    Ant {
        pos: Vec2i {
            x: clamp_int(a.pos.x + d.x, -POS_LIMIT as int, POS_LIMIT as int) as i64,
            y: clamp_int(a.pos.y + d.y, -POS_LIMIT as int, POS_LIMIT as int) as i64,
        },
        ..a
    }
}

/// Movement integration: advances the ant along its heading by its
/// fixed speed and the tick duration.
pub fn integrate_motion(a: &mut Ant, dt: u64)
    requires
        old(a).wf(),
        dt <= crate::MAX_TICK_MS,
    ensures
        final(a).wf(),
        *final(a) == integrate_spec(*old(a), dt),
{
    let s: i64 = sin_milli(a.heading_mdeg);
    let c: i64 = cos_milli(a.heading_mdeg);
    proof {
        assert(-20_000_000_000 <= ANT_MOVESPEED * dt * -s <= 20_000_000_000) by (nonlinear_arith)
            requires
                0 <= dt <= 1000,
                -1000 <= s <= 1000,
        ;
        assert(-20_000_000_000 <= ANT_MOVESPEED * dt * c <= 20_000_000_000) by (nonlinear_arith)
            requires
                0 <= dt <= 1000,
                -1000 <= c <= 1000,
        ;
    }
    let numx: i64 = ANT_MOVESPEED * (dt as i64) * (-s);
    let numy: i64 = ANT_MOVESPEED * (dt as i64) * c;
    let dx: i64 = if numx >= 0 {
        numx / 1_000_000
    } else {
        -((-numx) / 1_000_000)
    };
    let dy: i64 = if numy >= 0 {
        numy / 1_000_000
    } else {
        -((-numy) / 1_000_000)
    };
    a.pos = Vec2i { x: clamp_coord(a.pos.x + dx), y: clamp_coord(a.pos.y + dy) };
}

/// Spawns one ant for a colony: foraging, at the given position,
/// with a heading drawn from the stream.
pub fn spawn_ant(ants: &mut Vec<Ant>, colony: usize, pos: Vec2i, stream: &mut RandomStream)
    requires
        pos_in_bounds(pos),
        old(stream).wf(),
    ensures
        final(stream).wf(),
        final(stream).values@ == old(stream).values@,
        final(ants)@ == old(ants)@.push(
            spawned_ant(colony, pos, old(stream).peek_raw()),
        ),
        final(ants)@.len() == old(ants)@.len() + 1,
        final(stream).cursor == if old(stream).cursor < old(stream).values@.len() {
            old(stream).cursor + 1
        } else {
            old(stream).cursor as int
        },
        spawned_ant(colony, pos, old(stream).peek_raw()).wf(),
{
    let heading: i64 = stream.draw(0, FULL_TURN_MDEG - 1);
    let a: Ant = Ant::new(colony, pos, heading);
    ants.push(a);
}

/// When every sensor reports at or below the threshold, steering is
/// exactly the random-walk fallback: one value is drawn, the
/// persistent rotation bias absorbs it and is clamped into its
/// fixed range — so a bias trajectory can never leave that range —
/// and the heading turns by the clamped bias scaled by the tick.
pub proof fn lemma_random_walk_fallback(a: Ant, peek: int, dt: u64)
    requires
        a.wf(),
        dt <= crate::MAX_TICK_MS,
        a.left.intensity <= SIGNAL_THRESHOLD,
        a.right.intensity <= SIGNAL_THRESHOLD,
        a.center.intensity <= SIGNAL_THRESHOLD,
    ensures
        ({
            let st = steer_spec(a, peek, dt);
            &&& st.1
            &&& st.0.rotation_bias == clamp_int(
                a.rotation_bias + draw_map(
                    peek,
                    -WALK_DELTA_RANGE as int,
                    WALK_DELTA_RANGE as int,
                ),
                -ROTATION_BIAS_LIMIT as int,
                ROTATION_BIAS_LIMIT as int,
            )
            &&& -ROTATION_BIAS_LIMIT <= st.0.rotation_bias <= ROTATION_BIAS_LIMIT
            &&& st.0.heading_mdeg == norm_heading_spec(
                a.heading_mdeg + walk_turn(st.0.rotation_bias as int, dt),
            )
        }),
{
    let delta = draw_map(peek, -WALK_DELTA_RANGE as int, WALK_DELTA_RANGE as int);
    let nb = clamp_int(
        a.rotation_bias + delta,
        -ROTATION_BIAS_LIMIT as int,
        ROTATION_BIAS_LIMIT as int,
    );
    assert(-ROTATION_BIAS_LIMIT <= nb <= ROTATION_BIAS_LIMIT);
    assert(steer_spec(a, peek, dt).0.rotation_bias == nb);
    assert(-90_000_000 <= nb * 2 * dt <= 90_000_000) by (nonlinear_arith)
        requires
            -45_000 <= nb <= 45_000,
            0 <= dt <= 1000,
    ;
    crate::geometry::lemma_tdiv_1000_bound(nb * 2 * dt, 90_000_000);
}

/// The steering tie-break is the fixed priority order Center, then
/// Left, then Right: the center sensor wins whenever it is at least
/// as strong as both sides, a left-right tie above the center goes
/// left, and the right sensor wins only when strictly strongest.
pub proof fn lemma_steering_tie_break(l: int, r: int, c: int)
    ensures
        (winner_of(l, r, c) == SensorPosition::Center) == (c >= l && c >= r),
        (l == r && l > c) ==> winner_of(l, r, c) == SensorPosition::Left,
        (winner_of(l, r, c) == SensorPosition::Right) ==> (r > l && r > c),
        winning_intensity(l, r, c) >= l && winning_intensity(l, r, c) >= r
            && winning_intensity(l, r, c) >= c,
{
}

/// The ant a spawn produces for a given raw stream value.
pub open spec fn spawned_ant(colony: usize, pos: Vec2i, peek: int) -> Ant {
    Ant {
        state: AntState::Foraging,
        colony,
        pos,
        heading_mdeg: draw_map(peek, 0, FULL_TURN_MDEG - 1) as i64,
        rotation_bias: 0 as i64,
        left: Sensor { positioning: SensorPosition::Left, intensity: 0 as i64 },
        right: Sensor { positioning: SensorPosition::Right, intensity: 0 as i64 },
        center: Sensor { positioning: SensorPosition::Center, intensity: 0 as i64 },
    }
}

} // verus!
