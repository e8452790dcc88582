//! The world arena and the explicit per-tick update.
//!
//! All entities live in plain vectors indexed by position; a colony
//! back-reference is an index into the colony arena, validated on
//! every lookup. One call to [`World::tick`] advances the whole
//! simulation by its five phases in a fixed order: trail decay,
//! sensing, per-ant decision and movement, economy crediting (inside
//! the decision), and trail deposition.

use vstd::prelude::*;
use crate::geometry::{Vec2i, pos_in_bounds, overlaps, POS_LIMIT};
use crate::stimulant::{Pheromone, PheromoneType, Food, new_marker, decay_seq, deposit,
    pheromone_lifecycle, MAX_MARKERS, MAX_FOODS};
use crate::sensor::{Sensor, SensorPosition, sensor_value_spec, update_sensor};
use crate::ant::{Ant, AntState, pickup_spec, steer_spec, integrate_spec, collide_food, steer_ant,
    integrate_motion};
use crate::colony::{Colony, feed_spec, feed_colony, spawn_ants_spec};
use crate::rng::RandomStream;

verus! {

/// How often an eligible ant lays a marker, in milliseconds of
/// simulated time.
pub const DEPOSIT_INTERVAL_MS: u64 = 500;

/// The whole simulation state.
pub struct World {
    pub ants: Vec<Ant>,
    pub pheromones: Vec<Pheromone>,
    pub foods: Vec<Food>,
    pub colonies: Vec<Colony>,
    pub deposit_timer_ms: u64,
}

/// Which trail flavor an ant lays: searching ants mark the way back
/// home, carrying ants mark the way to food.
pub open spec fn deposit_type(s: AntState) -> PheromoneType {
    match s {
        AntState::Foraging => PheromoneType::HomeMarker,
        AntState::ReturningHome => PheromoneType::FoodMarker,
    }
}

/// An ant with this tick's sensor readings filled in; nothing else
/// about it changes.
pub open spec fn sensed_ant(a: Ant, ph: Seq<Pheromone>, foods: Seq<Food>) -> Ant {
    Ant {
        left: Sensor {
            positioning: a.left.positioning,
            intensity: sensor_value_spec(a, SensorPosition::Left, ph, foods) as i64,
        },
        right: Sensor {
            positioning: a.right.positioning,
            intensity: sensor_value_spec(a, SensorPosition::Right, ph, foods) as i64,
        },
        center: Sensor {
            positioning: a.center.positioning,
            intensity: sensor_value_spec(a, SensorPosition::Center, ph, foods) as i64,
        },
        ..a
    }
}

/// The whole population after the sensing phase.
pub open spec fn sense_all(ants: Seq<Ant>, ph: Seq<Pheromone>, foods: Seq<Food>) -> Seq<Ant> {
    Seq::new(ants.len(), |i: int| sensed_ant(ants[i], ph, foods))
}

/// One ant's full per-tick decision, atomic relative to the other
/// ants: food pickup, steering, colony drop-off, then movement.
pub open spec fn ant_step_spec(a: Ant, foods: Seq<Food>, cols: Seq<Colony>, peek: int, dt: u64)
    -> (Ant, Seq<Food>, Seq<Colony>, bool) {
    let pick = pickup_spec(a, foods);
    let steer = steer_spec(pick.0, peek, dt);
    let feed = feed_spec(steer.0, cols);
    (integrate_spec(feed.0, dt), pick.1, feed.1, steer.1)
}

/// The world's ants, food, colonies, and stream cursor after the
/// first `i` ants have taken their decision in arena order.
pub open spec fn decide_upto(
    ants0: Seq<Ant>,
    foods0: Seq<Food>,
    cols0: Seq<Colony>,
    values: Seq<i64>,
    cur0: int,
    dt: u64,
    i: int,
) -> (Seq<Ant>, Seq<Food>, Seq<Colony>, int)
    decreases i,
{
    if i <= 0 {
        (ants0, foods0, cols0, cur0)
    } else {
        let prev = decide_upto(ants0, foods0, cols0, values, cur0, dt, i - 1);
        let peek: int = if prev.3 < values.len() {
            values[prev.3] as int
        } else {
            0
        };
        let step = ant_step_spec(prev.0[i - 1], prev.1, prev.2, peek, dt);
        (
            prev.0.update(i - 1, step.0),
            step.1,
            step.2,
            if step.3 && prev.3 < values.len() {
                prev.3 + 1
            } else {
                prev.3
            },
        )
    }
}

/// The marker store after the first `i` ants have laid their
/// markers, capacity permitting.
pub open spec fn deposit_upto(ants: Seq<Ant>, ph0: Seq<Pheromone>, i: int) -> Seq<Pheromone>
    decreases i,
{
    if i <= 0 {
        ph0
    } else {
        let p = deposit_upto(ants, ph0, i - 1);
        if pos_in_bounds(ants[i - 1].pos) && p.len() < MAX_MARKERS {
            p.push(new_marker(deposit_type(ants[i - 1].state), ants[i - 1].pos))
        } else {
            p
        }
    }
}

/// The deposition phase: when the repeating interval elapses, every
/// ant lays one marker tagged by its current state and the interval
/// timer restarts; otherwise only the timer advances.
pub open spec fn deposit_phase_spec(ants: Seq<Ant>, ph0: Seq<Pheromone>, timer: u64, dt: u64)
    -> (Seq<Pheromone>, u64) {
    if timer + dt >= DEPOSIT_INTERVAL_MS {
        (deposit_upto(ants, ph0, ants.len() as int), 0u64)
    } else {
        (ph0, (timer + dt) as u64)
    }
}

/// A decision pass never resizes the population, and an ant not yet
/// processed is exactly as the sensing phase left it.
pub proof fn lemma_decide_upto_untouched(
    ants0: Seq<Ant>,
    foods0: Seq<Food>,
    cols0: Seq<Colony>,
    values: Seq<i64>,
    cur0: int,
    dt: u64,
    i: int,
)
    requires
        0 <= i <= ants0.len(),
    ensures
        ({
            let d = decide_upto(ants0, foods0, cols0, values, cur0, dt, i);
            &&& d.0.len() == ants0.len()
            &&& forall|k: int| i <= k < ants0.len() ==> d.0[k] == ants0[k]
        }),
    decreases i,
{
    if i > 0 {
        lemma_decide_upto_untouched(ants0, foods0, cols0, values, cur0, dt, i - 1);
        let prev = decide_upto(ants0, foods0, cols0, values, cur0, dt, i - 1);
        let d = decide_upto(ants0, foods0, cols0, values, cur0, dt, i);
        assert(d.0.len() == prev.0.len());
        assert forall|k: int| i <= k < ants0.len() implies d.0[k] == ants0[k] by {
            assert(prev.0[k] == ants0[k]);
            assert(d.0[k] == prev.0[k]);
        }
    }
}

/// Whether the ant at arena index `k` picks up a food item during
/// its decision step.
pub open spec fn picked_in_step(
    ants0: Seq<Ant>,
    foods0: Seq<Food>,
    cols0: Seq<Colony>,
    values: Seq<i64>,
    cur0: int,
    dt: u64,
    k: int,
) -> bool {
    let prev = decide_upto(ants0, foods0, cols0, values, cur0, dt, k);
    prev.0[k].state == AntState::Foraging && crate::ant::first_food_hit(prev.0[k], prev.1) is Some
}

/// How many of the first `i` ants picked up a food item this tick.
pub open spec fn pickup_count(
    ants0: Seq<Ant>,
    foods0: Seq<Food>,
    cols0: Seq<Colony>,
    values: Seq<i64>,
    cur0: int,
    dt: u64,
    i: int,
) -> int
    decreases i,
{
    if i <= 0 {
        0
    } else {
        pickup_count(ants0, foods0, cols0, values, cur0, dt, i - 1) + if picked_in_step(
            ants0,
            foods0,
            cols0,
            values,
            cur0,
            dt,
            i - 1,
        ) {
            1int
        } else {
            0int
        }
    }
}

/// Food is conserved one-for-one by the decision pass: every pickup
/// event destroys exactly one food item and every destroyed food
/// item belongs to exactly one pickup event — the store shrinks by
/// precisely the number of ants that picked up, and no ant picks up
/// more than once per tick, so no food item can be destroyed twice
/// or credited to two ants.
pub proof fn lemma_food_conservation(
    ants0: Seq<Ant>,
    foods0: Seq<Food>,
    cols0: Seq<Colony>,
    values: Seq<i64>,
    cur0: int,
    dt: u64,
    i: int,
)
    requires
        0 <= i <= ants0.len(),
    ensures
        ({
            let d = decide_upto(ants0, foods0, cols0, values, cur0, dt, i);
            let picks = pickup_count(ants0, foods0, cols0, values, cur0, dt, i);
            &&& d.1.len() + picks == foods0.len()
            &&& 0 <= picks <= i
            &&& d.1.to_multiset().subset_of(foods0.to_multiset())
        }),
    decreases i,
{
    broadcast use vstd::seq_lib::group_to_multiset_ensures;
    broadcast use vstd::multiset::group_multiset_axioms;

    if i <= 0 {
        let d = decide_upto(ants0, foods0, cols0, values, cur0, dt, i);
        assert(d.1 == foods0);
    } else {
        lemma_food_conservation(ants0, foods0, cols0, values, cur0, dt, i - 1);
        let prev = decide_upto(ants0, foods0, cols0, values, cur0, dt, i - 1);
        crate::ant::lemma_first_food_hit(prev.0[i - 1], prev.1);
        let d = decide_upto(ants0, foods0, cols0, values, cur0, dt, i);
        if picked_in_step(ants0, foods0, cols0, values, cur0, dt, i - 1) {
            let k = crate::ant::first_food_hit(prev.0[i - 1], prev.1)->Some_0;
            assert(d.1 == prev.1.remove(k));
            assert(prev.1.remove(k).to_multiset() =~= prev.1.to_multiset().remove(prev.1[k]));
            assert forall|x: Food|
                d.1.to_multiset().count(x) <= foods0.to_multiset().count(x) by {
                assert(prev.1.to_multiset().remove(prev.1[k]).count(x) <= prev.1.to_multiset()
                    .count(x));
                assert(prev.1.to_multiset().count(x) <= foods0.to_multiset().count(x));
            }
        } else {
            assert(d.1 == prev.1);
        }
    }
}

/// The only state transitions are the two the cycle allows, each
/// tied exactly to its trigger: while foraging, the flag flips to
/// `ReturningHome` iff some food item overlaps the ant's body when
/// its turn comes; while returning, it flips back to `Foraging` iff
/// the ant's own colony footprint overlaps its body; steering and
/// movement never touch the flag.
pub proof fn lemma_state_transitions(a: Ant, foods: Seq<Food>, cols: Seq<Colony>, peek: int,
    dt: u64)
    ensures
        ({
            let pick = pickup_spec(a, foods);
            let steer = steer_spec(pick.0, peek, dt);
            let feed = feed_spec(steer.0, cols);
            let stepped = ant_step_spec(a, foods, cols, peek, dt);
            &&& (pick.0.state == AntState::ReturningHome && a.state == AntState::Foraging) <==> (
                a.state == AntState::Foraging && exists|j: int|
                    0 <= j < foods.len() && overlaps(
                        a.rect_spec(),
                        (#[trigger] foods[j]).rect_spec(),
                    ))
            &&& steer.0.state == pick.0.state
            &&& (feed.0.state == AntState::Foraging && steer.0.state == AntState::ReturningHome)
                <==> (steer.0.state == AntState::ReturningHome && a.colony < cols.len() && overlaps(
                a.rect_spec(),
                cols[a.colony as int].rect_spec(),
            ))
            &&& stepped.0.state == feed.0.state
        }),
{
    let pick = pickup_spec(a, foods);
    let steer = steer_spec(pick.0, peek, dt);
    crate::ant::lemma_first_food_hit(a, foods);
    assert(steer.0.rect_spec() == a.rect_spec());
    assert(steer.0.colony == a.colony);
}

impl World {
    /// Every stored entity valid, the stores within capacity, and
    /// the deposition timer inside its interval.
    pub open spec fn wf(self) -> bool {
        &&& forall|i: int| 0 <= i < self.ants@.len() ==> (#[trigger] self.ants@[i]).wf()
        &&& forall|i: int| 0 <= i < self.pheromones@.len() ==> (#[trigger] self.pheromones@[i]).wf()
        &&& forall|i: int| 0 <= i < self.foods@.len() ==> (#[trigger] self.foods@[i]).wf()
        &&& forall|i: int| 0 <= i < self.colonies@.len() ==> (#[trigger] self.colonies@[i]).wf()
        &&& self.pheromones@.len() <= MAX_MARKERS
        &&& self.foods@.len() <= MAX_FOODS
        &&& self.deposit_timer_ms < DEPOSIT_INTERVAL_MS
    }

    /// An empty world.
    pub fn new() -> (w: World)
        ensures
            w.wf(),
            w.ants@.len() == 0,
            w.pheromones@.len() == 0,
            w.foods@.len() == 0,
            w.colonies@.len() == 0,
            w.deposit_timer_ms == 0,
    {
        World {
            ants: Vec::new(),
            pheromones: Vec::new(),
            foods: Vec::new(),
            colonies: Vec::new(),
            deposit_timer_ms: 0,
        }
    }

    /// The operator's "place a food item here" trigger; accepted at
    /// any tick. Rejects a position outside the world or a full
    /// store, leaving everything unchanged.
    pub fn place_food(&mut self, pos: Vec2i) -> (ok: bool)
        requires
            old(self).wf(),
        ensures
            final(self).wf(),
            ok == (pos_in_bounds(pos) && old(self).foods@.len() < MAX_FOODS),
            ok ==> final(self).foods@ == old(self).foods@.push(Food { pos }),
            !ok ==> final(self).foods@ == old(self).foods@,
            final(self).ants@ == old(self).ants@,
            final(self).pheromones@ == old(self).pheromones@,
            final(self).colonies@ == old(self).colonies@,
            final(self).deposit_timer_ms == old(self).deposit_timer_ms,
    {
        if -POS_LIMIT <= pos.x && pos.x <= POS_LIMIT && -POS_LIMIT <= pos.y && pos.y <= POS_LIMIT
            && self.foods.len() < MAX_FOODS {
            self.foods.push(Food { pos });
            true
        } else {
            false
        }
    }

    /// The operator's "place a marker of this flavor here" trigger;
    /// accepted at any tick, on the same terms as `place_food`.
    pub fn place_marker(&mut self, ptype: PheromoneType, pos: Vec2i) -> (ok: bool)
        requires
            old(self).wf(),
        ensures
            final(self).wf(),
            ok == (pos_in_bounds(pos) && old(self).pheromones@.len() < MAX_MARKERS),
            ok ==> final(self).pheromones@ == old(self).pheromones@.push(new_marker(ptype, pos)),
            !ok ==> final(self).pheromones@ == old(self).pheromones@,
            final(self).ants@ == old(self).ants@,
            final(self).foods@ == old(self).foods@,
            final(self).colonies@ == old(self).colonies@,
            final(self).deposit_timer_ms == old(self).deposit_timer_ms,
    {
        deposit(&mut self.pheromones, ptype, pos)
    }

    /// Founds a colony and spawns its starting population of ants
    /// around it.
    pub fn spawn_colony(&mut self, pos: Vec2i, count: usize, stream: &mut RandomStream)
        requires
            old(self).wf(),
            old(stream).wf(),
            pos_in_bounds(pos),
        ensures
            final(self).wf(),
            final(stream).wf(),
            final(stream).values@ == old(stream).values@,
            final(self).colonies@ == old(self).colonies@.push(Colony { pos, food_store: 0 }),
            (final(self).ants@, final(stream).cursor as int) == spawn_ants_spec(
                old(self).ants@,
                old(self).colonies@.len() as usize,
                pos,
                old(stream).values@,
                old(stream).cursor as int,
                count as nat,
            ),
            final(self).pheromones@ == old(self).pheromones@,
            final(self).foods@ == old(self).foods@,
            final(self).deposit_timer_ms == old(self).deposit_timer_ms,
    {
        crate::colony::spawn_colony(&mut self.colonies, &mut self.ants, pos, count, stream);
    }

    /// One simulation tick: trail decay, sensing, the per-ant
    /// decision (food pickup, steering, colony drop-off, movement),
    /// and trail deposition, in that fixed order. Deterministic
    /// given the stream's recorded values.
    pub fn tick(&mut self, dt: u64, stream: &mut RandomStream)
        requires
            old(self).wf(),
            old(stream).wf(),
            dt <= crate::MAX_TICK_MS,
        ensures
            final(self).wf(),
            final(stream).wf(),
            final(stream).values@ == old(stream).values@,
            ({
                let ph1 = decay_seq(old(self).pheromones@, dt);
                let sensed = sense_all(old(self).ants@, ph1, old(self).foods@);
                let dec = decide_upto(
                    sensed,
                    old(self).foods@,
                    old(self).colonies@,
                    old(stream).values@,
                    old(stream).cursor as int,
                    dt,
                    sensed.len() as int,
                );
                let dep = deposit_phase_spec(dec.0, ph1, old(self).deposit_timer_ms, dt);
                &&& final(self).ants@ == dec.0
                &&& final(self).foods@ == dec.1
                &&& final(self).colonies@ == dec.2
                &&& final(stream).cursor == dec.3
                &&& final(self).pheromones@ == dep.0
                &&& final(self).deposit_timer_ms == dep.1
            }),
    {
        let ghost ants0 = self.ants@;
        let ghost foods0 = self.foods@;
        let ghost cols0 = self.colonies@;
        let ghost timer0 = self.deposit_timer_ms;

        // Phase 1: trail decay.
        pheromone_lifecycle(&mut self.pheromones, dt);
        let ghost ph1 = self.pheromones@;

        // Phase 2: sensing, from scratch, for every ant.
        let n: usize = self.ants.len();
        let mut i: usize = 0;
        while i < n
            invariant
                n == self.ants@.len(),
                i <= n,
                ants0 == old(self).ants@,
                foods0 == old(self).foods@,
                cols0 == old(self).colonies@,
                timer0 == old(self).deposit_timer_ms,
                ph1 == decay_seq(old(self).pheromones@, dt),
                self.pheromones@ == ph1,
                self.foods@ == foods0,
                self.colonies@ == cols0,
                self.deposit_timer_ms == timer0,
                self.pheromones@.len() <= MAX_MARKERS,
                self.foods@.len() <= MAX_FOODS,
                forall|k: int|
                    0 <= k < self.pheromones@.len() ==> (#[trigger] self.pheromones@[k]).wf(),
                forall|k: int| 0 <= k < self.foods@.len() ==> (#[trigger] self.foods@[k]).wf(),
                forall|k: int| 0 <= k < n ==> (#[trigger] ants0[k]).wf(),
                forall|k: int| 0 <= k < i ==> self.ants@[k] == sensed_ant(ants0[k], ph1, foods0),
                forall|k: int| i <= k < n ==> self.ants@[k] == ants0[k],
                forall|k: int| 0 <= k < n ==> (#[trigger] self.ants@[k]).wf(),
            decreases n - i,
        {
            let mut a: Ant = self.ants[i];
            update_sensor(&mut a, &self.pheromones, &self.foods);
            proof {
                assert(a == sensed_ant(ants0[i as int], ph1, foods0));
            }
            self.ants[i] = a;
            i = i + 1;
        }
        proof {
            assert(self.ants@ =~= sense_all(ants0, ph1, foods0));
        }
        let ghost sensed = sense_all(ants0, ph1, foods0);

        // Phase 3: each ant's decision and movement, atomic in
        // arena order.
        let ghost values = stream.values@;
        let ghost cur0 = stream.cursor as int;
        let mut j: usize = 0;
        while j < n
            invariant
                n == self.ants@.len(),
                j <= n,
                dt <= crate::MAX_TICK_MS,
                ants0 == old(self).ants@,
                foods0 == old(self).foods@,
                cols0 == old(self).colonies@,
                timer0 == old(self).deposit_timer_ms,
                ph1 == decay_seq(old(self).pheromones@, dt),
                sensed == sense_all(ants0, ph1, foods0),
                sensed.len() == n,
                values == old(stream).values@,
                cur0 == old(stream).cursor as int,
                stream.wf(),
                stream.values@ == values,
                self.pheromones@ == ph1,
                self.deposit_timer_ms == timer0,
                self.ants@ == decide_upto(sensed, foods0, cols0, values, cur0, dt, j as int).0,
                self.foods@ == decide_upto(sensed, foods0, cols0, values, cur0, dt, j as int).1,
                self.colonies@ == decide_upto(sensed, foods0, cols0, values, cur0, dt, j as int).2,
                stream.cursor as int == decide_upto(sensed, foods0, cols0, values, cur0, dt,
                    j as int).3,
                self.pheromones@.len() <= MAX_MARKERS,
                self.foods@.len() <= MAX_FOODS,
                forall|k: int|
                    0 <= k < self.pheromones@.len() ==> (#[trigger] self.pheromones@[k]).wf(),
                forall|k: int| 0 <= k < self.foods@.len() ==> (#[trigger] self.foods@[k]).wf(),
                forall|k: int| 0 <= k < self.colonies@.len() ==> (#[trigger] self.colonies@[k]).wf(),
                forall|k: int| 0 <= k < n ==> (#[trigger] self.ants@[k]).wf(),
            decreases n - j,
        {
            proof {
                lemma_decide_upto_untouched(sensed, foods0, cols0, values, cur0, dt, j as int);
            }
            let mut a: Ant = self.ants[j];
            collide_food(&mut a, &mut self.foods);
            steer_ant(&mut a, stream, dt);
            feed_colony(&mut a, &mut self.colonies);
            integrate_motion(&mut a, dt);
            self.ants[j] = a;
            j = j + 1;
        }

        // Phases 4 and 5: economy already credited at drop-off;
        // deposition when the interval elapses.
        if self.deposit_timer_ms + dt >= DEPOSIT_INTERVAL_MS {
            let ghost ants_f = self.ants@;
            let ghost foods_f = self.foods@;
            let ghost cols_f = self.colonies@;
            let ghost cur_f = stream.cursor as int;
            let mut k: usize = 0;
            while k < n
                invariant
                    n == self.ants@.len(),
                    k <= n,
                    ants_f == self.ants@,
                    foods_f == self.foods@,
                    cols_f == self.colonies@,
                    timer0 == self.deposit_timer_ms,
                    self.pheromones@ == deposit_upto(ants_f, ph1, k as int),
                    self.pheromones@.len() <= MAX_MARKERS,
                    forall|m: int|
                        0 <= m < self.pheromones@.len() ==> (#[trigger] self.pheromones@[m]).wf(),
                    forall|m: int| 0 <= m < n ==> (#[trigger] self.ants@[m]).wf(),
                decreases n - k,
            {
                let a: Ant = self.ants[k];
                let ptype: PheromoneType = match a.state {
                    AntState::Foraging => PheromoneType::HomeMarker,
                    AntState::ReturningHome => PheromoneType::FoodMarker,
                };
                deposit(&mut self.pheromones, ptype, a.pos);
                k = k + 1;
            }
            self.deposit_timer_ms = 0;
        } else {
            self.deposit_timer_ms = self.deposit_timer_ms + dt;
        }
    }
}

} // verus!
