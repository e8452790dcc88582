//! The chemo-sensor triad: three directional detectors mounted
//! forward of an ant's body, symmetric about its heading.
//!
//! Each tick a sensor's intensity is recomputed from scratch: the
//! sum of the intensity of every matching pheromone marker whose
//! footprint overlaps the sensor's, plus a large fixed bonus for
//! every raw food item in reach while the ant is foraging.

use vstd::prelude::*;
use crate::geometry::{Vec2i, Rect, rotate_spec, rotate_offset, overlaps, collide, pos_in_bounds,
    rect_in_bounds, FULL_TURN_MDEG};
use crate::stimulant::{Pheromone, PheromoneType, Food, intensity_at, FULL_INTENSITY, MAX_MARKERS,
    MAX_FOODS};
use crate::ant::{Ant, AntState};

verus! {

/// Mounting angle of the side sensors from the heading, in
/// millidegrees; also the per-second steering magnitude base.
pub const SENSOR_ANGLE_MDEG: i64 = 40_000;

/// Half-extent of a sensor's sampling footprint, in milli-units.
pub const SENSOR_HALF: i64 = 50_000;

/// Intensity contributed by one raw food item in sensor reach.
pub const FOOD_SENSE_BONUS: i64 = 100_000;

/// Where a sensor is mounted relative to the ant's heading.
#[derive(Clone, Copy, PartialEq, Eq, Structural, Debug)]
pub enum SensorPosition {
    Left,
    Right,
    Center,
}

/// One directional detector; its intensity is recomputed every tick
/// and never persists.
#[derive(Clone, Copy, PartialEq, Eq, Structural, Debug)]
pub struct Sensor {
    pub positioning: SensorPosition,
    pub intensity: i64,
}

impl Sensor {
    /// A quiet sensor on the given mount.
    pub fn new(positioning: SensorPosition) -> (s: Sensor)
        ensures
            s.positioning == positioning,
            s.intensity == 0,
    {
        Sensor { positioning, intensity: 0 }
    }
}

/// Body-relative mounting offset of each sensor, in milli-units:
/// the side sensors sit forward-left and forward-right, the center
/// sensor straight ahead.
pub open spec fn sensor_offset(p: SensorPosition) -> Vec2i {
    match p {
        SensorPosition::Left => Vec2i { x: -100_000 as i64, y: 100_000 as i64 },
        SensorPosition::Right => Vec2i { x: 100_000 as i64, y: 100_000 as i64 },
        SensorPosition::Center => Vec2i { x: 0 as i64, y: 150_000 as i64 },
    }
}

/// World-space sampling footprint of a sensor: the mounting offset
/// rotated by the ant's heading, around the ant's position.
pub open spec fn sensor_rect_spec(pos: Vec2i, heading: int, p: SensorPosition) -> Rect {
    let off = rotate_spec(sensor_offset(p), heading);
    Rect {
        center: Vec2i { x: (pos.x + off.x) as i64, y: (pos.y + off.y) as i64 },
        half: Vec2i { x: SENSOR_HALF, y: SENSOR_HALF },
    }
}

/// Computes a sensor's world-space footprint.
pub fn sensor_rect(pos: Vec2i, heading: i64, p: SensorPosition) -> (r: Rect)
    requires
        pos_in_bounds(pos),
        0 <= heading < FULL_TURN_MDEG,
    ensures
        r == sensor_rect_spec(pos, heading as int, p),
        rect_in_bounds(r),
{
    let off: Vec2i = match p {
        SensorPosition::Left => Vec2i { x: -100_000, y: 100_000 },
        SensorPosition::Right => Vec2i { x: 100_000, y: 100_000 },
        SensorPosition::Center => Vec2i { x: 0, y: 150_000 },
    };
    let rot: Vec2i = rotate_offset(off, heading);
    Rect {
        center: Vec2i { x: pos.x + rot.x, y: pos.y + rot.y },
        half: Vec2i { x: SENSOR_HALF, y: SENSOR_HALF },
    }
}

/// Which trail flavor a state searches for: foraging ants follow
/// food trails, returning ants follow home trails.
pub open spec fn search_type(state: AntState) -> PheromoneType {
    match state {
        AntState::Foraging => PheromoneType::FoodMarker,
        AntState::ReturningHome => PheromoneType::HomeMarker,
    }
}

/// What one marker adds to a sensor reading: its current intensity
/// if it is of the searched flavor and in reach, else nothing.
pub open spec fn marker_contribution(rect: Rect, stype: PheromoneType, m: Pheromone) -> int {
    if m.ptype == stype && overlaps(rect, m.rect_spec()) {
        intensity_at(m.age_ms as int)
    } else {
        0
    }
}

/// Summed trail intensity over a marker store.
pub open spec fn sum_markers(rect: Rect, stype: PheromoneType, s: Seq<Pheromone>) -> int
    decreases s.len(),
{
    if s.len() == 0 {
        0
    } else {
        sum_markers(rect, stype, s.drop_last()) + marker_contribution(rect, stype, s.last())
    }
}

/// What one raw food item adds to a sensor reading.
pub open spec fn food_contribution(rect: Rect, f: Food) -> int {
    if overlaps(rect, f.rect_spec()) {
        FOOD_SENSE_BONUS as int
    } else {
        0
    }
}

/// Summed food bonus over the food store.
pub open spec fn sum_foods(rect: Rect, s: Seq<Food>) -> int
    decreases s.len(),
{
    if s.len() == 0 {
        0
    } else {
        sum_foods(rect, s.drop_last()) + food_contribution(rect, s.last())
    }
}

/// The intensity a sensor reports this tick: trail intensity of the
/// searched flavor, plus the raw-food bonus while foraging.
pub open spec fn sensor_value_spec(a: Ant, p: SensorPosition, ph: Seq<Pheromone>, foods: Seq<Food>)
    -> int {
    let rect = sensor_rect_spec(a.pos, a.heading_mdeg as int, p);
    match a.state {
        AntState::Foraging => sum_markers(rect, search_type(a.state), ph) + sum_foods(rect, foods),
        AntState::ReturningHome => sum_markers(rect, search_type(a.state), ph),
    }
}

/// Summed trail intensity is non-negative and at most full
/// intensity per stored marker.
pub proof fn lemma_sum_markers_bounds(rect: Rect, stype: PheromoneType, s: Seq<Pheromone>)
    ensures
        0 <= sum_markers(rect, stype, s) <= s.len() * FULL_INTENSITY,
    decreases s.len(),
{
    if s.len() > 0 {
        lemma_sum_markers_bounds(rect, stype, s.drop_last());
        let m = s.last();
        if m.ptype == stype && overlaps(rect, m.rect_spec()) {
            lemma_intensity_range(m.age_ms as int);
        }
    }
}

/// Intensity of any age lies between 0 and full intensity.
proof fn lemma_intensity_range(a: int)
    requires
        0 <= a,
    ensures
        0 <= intensity_at(a) <= FULL_INTENSITY,
{
    let l = crate::stimulant::PHEROMONE_LIFETIME_MS as int;
    if a < l {
        vstd::arithmetic::div_mod::lemma_div_is_ordered(0, a * FULL_INTENSITY, l);
        vstd::arithmetic::div_mod::lemma_div_is_ordered(
            a * FULL_INTENSITY,
            (l - 1) * FULL_INTENSITY,
            l,
        );
    }
}

/// A marker at or past its lifetime reads as exactly zero, so even
/// before the decay pass removes it, an expired marker contributes
/// nothing to any sensor; once removed it is out of the store and
/// out of every sum.
pub proof fn lemma_expired_marker_contributes_nothing(rect: Rect, stype: PheromoneType,
    m: Pheromone)
    requires
        m.age_ms >= crate::stimulant::PHEROMONE_LIFETIME_MS,
    ensures
        marker_contribution(rect, stype, m) == 0,
{
}

/// Summed food bonus is non-negative and at most the bonus per
/// stored item.
pub proof fn lemma_sum_foods_bounds(rect: Rect, s: Seq<Food>)
    ensures
        0 <= sum_foods(rect, s) <= s.len() * FOOD_SENSE_BONUS,
    decreases s.len(),
{
    if s.len() > 0 {
        lemma_sum_foods_bounds(rect, s.drop_last());
    }
}

/// Sums the searched trail flavor over the marker store for one
/// sensor footprint.
fn sense_markers(rect: &Rect, stype: PheromoneType, ph: &Vec<Pheromone>) -> (r: i64)
    requires
        rect_in_bounds(*rect),
        ph@.len() <= MAX_MARKERS,
        forall|i: int| 0 <= i < ph@.len() ==> (#[trigger] ph@[i]).wf(),
    ensures
        r == sum_markers(*rect, stype, ph@),
        0 <= r <= ph@.len() * FULL_INTENSITY,
{
    let n: usize = ph.len();
    let mut acc: i64 = 0;
    let mut i: usize = 0;
    proof {
        lemma_sum_markers_bounds(*rect, stype, ph@.take(0));
    }
    while i < n
        invariant
            n == ph@.len(),
            i <= n,
            n <= MAX_MARKERS,
            rect_in_bounds(*rect),
            forall|j: int| 0 <= j < n ==> (#[trigger] ph@[j]).wf(),
            acc == sum_markers(*rect, stype, ph@.take(i as int)),
            0 <= acc <= i * FULL_INTENSITY,
        decreases n - i,
    {
        let m: Pheromone = ph[i];
        proof {
            assert(ph@.take(i + 1).drop_last() =~= ph@.take(i as int));
            assert(ph@.take(i + 1).last() == ph@[i as int]);
            lemma_intensity_range(m.age_ms as int);
        }
        let same_type: bool = match (m.ptype, stype) {
            (PheromoneType::HomeMarker, PheromoneType::HomeMarker) => true,
            (PheromoneType::FoodMarker, PheromoneType::FoodMarker) => true,
            _ => false,
        };
        if same_type {
            let mrect: Rect = m.rect();
            if collide(rect, &mrect) {
                acc = acc + m.intensity();
            }
        }
        i = i + 1;
    }
    proof {
        assert(ph@.take(n as int) =~= ph@);
    }
    acc
}

/// Sums the raw-food bonus over the food store for one sensor
/// footprint.
fn sense_foods(rect: &Rect, foods: &Vec<Food>) -> (r: i64)
    requires
        rect_in_bounds(*rect),
        foods@.len() <= MAX_FOODS,
        forall|i: int| 0 <= i < foods@.len() ==> (#[trigger] foods@[i]).wf(),
    ensures
        r == sum_foods(*rect, foods@),
        0 <= r <= foods@.len() * FOOD_SENSE_BONUS,
{
    let n: usize = foods.len();
    let mut acc: i64 = 0;
    let mut i: usize = 0;
    while i < n
        invariant
            n == foods@.len(),
            i <= n,
            n <= MAX_FOODS,
            rect_in_bounds(*rect),
            forall|j: int| 0 <= j < n ==> (#[trigger] foods@[j]).wf(),
            acc == sum_foods(*rect, foods@.take(i as int)),
            0 <= acc <= i * FOOD_SENSE_BONUS,
        decreases n - i,
    {
        let f: Food = foods[i];
        proof {
            assert(foods@.take(i + 1).drop_last() =~= foods@.take(i as int));
            assert(foods@.take(i + 1).last() == foods@[i as int]);
        }
        let frect: Rect = f.rect();
        if collide(rect, &frect) {
            acc = acc + FOOD_SENSE_BONUS;
        }
        i = i + 1;
    }
    proof {
        assert(foods@.take(n as int) =~= foods@);
    }
    acc
}

/// Recomputes the ant's three sensor intensities from scratch for
/// this tick; nothing else about the ant changes.
pub fn update_sensor(a: &mut Ant, ph: &Vec<Pheromone>, foods: &Vec<Food>)
    requires
        old(a).wf(),
        ph@.len() <= MAX_MARKERS,
        foods@.len() <= MAX_FOODS,
        forall|i: int| 0 <= i < ph@.len() ==> (#[trigger] ph@[i]).wf(),
        forall|i: int| 0 <= i < foods@.len() ==> (#[trigger] foods@[i]).wf(),
    ensures
        final(a).wf(),
        final(a).left.intensity == sensor_value_spec(*old(a), SensorPosition::Left, ph@, foods@),
        final(a).right.intensity == sensor_value_spec(*old(a), SensorPosition::Right, ph@, foods@),
        final(a).center.intensity == sensor_value_spec(*old(a), SensorPosition::Center, ph@,
            foods@),
        *final(a) == (Ant {
            left: final(a).left,
            right: final(a).right,
            center: final(a).center,
            ..*old(a)
        }),
        final(a).left.positioning == old(a).left.positioning,
        final(a).right.positioning == old(a).right.positioning,
        final(a).center.positioning == old(a).center.positioning,
{
    let lrect: Rect = sensor_rect(a.pos, a.heading_mdeg, SensorPosition::Left);
    let rrect: Rect = sensor_rect(a.pos, a.heading_mdeg, SensorPosition::Right);
    let crect: Rect = sensor_rect(a.pos, a.heading_mdeg, SensorPosition::Center);
    let foraging: bool = match a.state {
        AntState::Foraging => true,
        AntState::ReturningHome => false,
    };
    let stype: PheromoneType = if foraging {
        PheromoneType::FoodMarker
    } else {
        PheromoneType::HomeMarker
    };
    let lsum: i64 = sense_markers(&lrect, stype, ph);
    let rsum: i64 = sense_markers(&rrect, stype, ph);
    let csum: i64 = sense_markers(&crect, stype, ph);
    if foraging {
        proof {
            lemma_sum_markers_bounds(lrect, stype, ph@);
            lemma_sum_markers_bounds(rrect, stype, ph@);
            lemma_sum_markers_bounds(crect, stype, ph@);
            lemma_sum_foods_bounds(lrect, foods@);
            lemma_sum_foods_bounds(rrect, foods@);
            lemma_sum_foods_bounds(crect, foods@);
        }
        let lf: i64 = sense_foods(&lrect, foods);
        let rf: i64 = sense_foods(&rrect, foods);
        let cf: i64 = sense_foods(&crect, foods);
        a.left.intensity = lsum + lf;
        a.right.intensity = rsum + rf;
        a.center.intensity = csum + cf;
    } else {
        a.left.intensity = lsum;
        a.right.intensity = rsum;
        a.center.intensity = csum;
    }
}

} // verus!
