//! Pheromone markers and food items: the stimuli ants sense.
//!
//! A marker's intensity is a pure function of its age: full strength
//! (per-mille scale, 1000) when deposited, decaying linearly to
//! exactly 0 at the end of its fixed lifetime, at which point the
//! decay pass removes it from the store.

use vstd::prelude::*;
use crate::geometry::{Vec2i, Rect, pos_in_bounds, POS_LIMIT};

verus! {

/// Total lifetime of a pheromone marker, in milliseconds.
pub const PHEROMONE_LIFETIME_MS: u64 = 30_000;

/// Intensity of a freshly deposited marker (per-mille scale).
pub const FULL_INTENSITY: i64 = 1000;

/// Half-extent of a marker's footprint, in milli-units.
pub const MARKER_HALF: i64 = 5_000;

/// Half-extent of a food item's footprint, in milli-units.
pub const FOOD_HALF: i64 = 5_000;

/// Capacity of the marker store.
pub const MAX_MARKERS: usize = 1_000_000;

/// Capacity of the food store.
pub const MAX_FOODS: usize = 1_000_000;

/// The two trail flavors: `HomeMarker` is laid by foraging ants and
/// points back to the colony; `FoodMarker` is laid by returning ants
/// and points toward food.
#[derive(Clone, Copy, PartialEq, Eq, Structural, Debug)]
pub enum PheromoneType {
    HomeMarker,
    FoodMarker,
}

/// A deposited trail marker: spatially fixed, decaying with age.
#[derive(Clone, Copy, PartialEq, Eq, Structural, Debug)]
pub struct Pheromone {
    pub ptype: PheromoneType,
    pub pos: Vec2i,
    pub age_ms: u64,
}

/// A food item awaiting pickup; its footprint is fixed.
#[derive(Clone, Copy, PartialEq, Eq, Structural, Debug)]
pub struct Food {
    pub pos: Vec2i,
}

/// Marker intensity as a pure function of age: linear decay from
/// full strength to exactly 0 at lifetime expiry.
pub open spec fn intensity_at(age_ms: int) -> int {
    if age_ms >= PHEROMONE_LIFETIME_MS {
        0
    } else {
        FULL_INTENSITY - (age_ms * FULL_INTENSITY) / (PHEROMONE_LIFETIME_MS as int)
    }
}

/// The same marker, `dt` milliseconds older.
pub open spec fn aged(m: Pheromone, dt: u64) -> Pheromone {
    Pheromone { age_ms: (m.age_ms + dt) as u64, ..m }
}

/// A freshly deposited marker.
pub open spec fn new_marker(ptype: PheromoneType, pos: Vec2i) -> Pheromone {
    Pheromone { ptype, pos, age_ms: 0 }
}

/// The marker store after one decay pass: every marker ages by
/// `dt`, and any marker reaching its lifetime is removed, in place,
/// keeping the store's order.
pub open spec fn decay_seq(s: Seq<Pheromone>, dt: u64) -> Seq<Pheromone>
    decreases s.len(),
{
    if s.len() == 0 {
        Seq::empty()
    } else {
        let rest = decay_seq(s.drop_last(), dt);
        if s.last().age_ms + dt >= PHEROMONE_LIFETIME_MS {
            rest
        } else {
            rest.push(aged(s.last(), dt))
        }
    }
}

impl Pheromone {
    /// A stored marker: still alive, inside the world.
    pub open spec fn wf(self) -> bool {
        &&& self.age_ms < PHEROMONE_LIFETIME_MS
        &&& pos_in_bounds(self.pos)
    }

    /// The marker's sensing footprint.
    pub open spec fn rect_spec(self) -> Rect {
        Rect { center: self.pos, half: Vec2i { x: MARKER_HALF, y: MARKER_HALF } }
    }

    pub fn rect(&self) -> (r: Rect)
        ensures
            r == self.rect_spec(),
    {
        Rect { center: self.pos, half: Vec2i { x: MARKER_HALF, y: MARKER_HALF } }
    }

    /// Current intensity, exactly the linear-decay law.
    pub fn intensity(&self) -> (r: i64)
        ensures
            r == intensity_at(self.age_ms as int),
            0 <= r <= FULL_INTENSITY,
    {
        if self.age_ms >= PHEROMONE_LIFETIME_MS {
            0
        } else {
            let scaled: u64 = (self.age_ms * 1000) / PHEROMONE_LIFETIME_MS;
            FULL_INTENSITY - (scaled as i64)
        }
    }
}

impl Default for Pheromone {
    /// A placeholder marker: home-flavored, at the origin, fresh.
    fn default() -> (d: Self)
        ensures
            d == (Pheromone {
                ptype: PheromoneType::HomeMarker,
                pos: Vec2i { x: 0, y: 0 },
                age_ms: 0,
            }),
    {
        Pheromone { ptype: PheromoneType::HomeMarker, pos: Vec2i { x: 0, y: 0 }, age_ms: 0 }
    }
}

impl Food {
    /// The food item's pickup and sensing footprint.
    pub open spec fn rect_spec(self) -> Rect {
        Rect { center: self.pos, half: Vec2i { x: FOOD_HALF, y: FOOD_HALF } }
    }

    pub open spec fn wf(self) -> bool {
        pos_in_bounds(self.pos)
    }

    pub fn rect(&self) -> (r: Rect)
        ensures
            r == self.rect_spec(),
    {
        Rect { center: self.pos, half: Vec2i { x: FOOD_HALF, y: FOOD_HALF } }
    }
}

/// One decay pass over the marker store: ages every marker, drops
/// the expired ones, keeps the order of the survivors.
pub fn pheromone_lifecycle(ph: &mut Vec<Pheromone>, dt: u64)
    requires
        dt <= crate::MAX_TICK_MS,
        forall|i: int| 0 <= i < old(ph)@.len() ==> (#[trigger] old(ph)@[i]).wf(),
    ensures
        final(ph)@ == decay_seq(old(ph)@, dt),
        final(ph)@.len() <= old(ph)@.len(),
        forall|i: int| 0 <= i < final(ph)@.len() ==> (#[trigger] final(ph)@[i]).wf(),
{
    let n: usize = ph.len();
    let mut out: Vec<Pheromone> = Vec::new();
    let mut i: usize = 0;
    while i < n
        invariant
            n == ph@.len(),
            i <= n,
            dt <= 1_000,
            forall|j: int| 0 <= j < n ==> (#[trigger] ph@[j]).wf(),
            out@ == decay_seq(ph@.take(i as int), dt),
            out@.len() <= i,
            forall|j: int| 0 <= j < out@.len() ==> (#[trigger] out@[j]).wf(),
        decreases n - i,
    {
        let m: Pheromone = ph[i];
        proof {
            assert(ph@.take(i + 1).drop_last() =~= ph@.take(i as int));
            assert(ph@.take(i + 1).last() == ph@[i as int]);
        }
        if m.age_ms + dt < PHEROMONE_LIFETIME_MS {
            let older: Pheromone = Pheromone { ptype: m.ptype, pos: m.pos, age_ms: m.age_ms + dt };
            proof {
                assert(older == aged(m, dt));
            }
            out.push(older);
        }
        i = i + 1;
    }
    proof {
        assert(ph@.take(n as int) =~= ph@);
    }
    *ph = out;
}

/// Deposits a marker of the given type at a world position: the
/// operator's trigger as well as the trail-laying step. Returns
/// whether the marker was placed; a position outside the world or a
/// full store leaves everything unchanged.
pub fn deposit(ph: &mut Vec<Pheromone>, ptype: PheromoneType, pos: Vec2i) -> (ok: bool)
    ensures
        ok == (pos_in_bounds(pos) && old(ph)@.len() < MAX_MARKERS),
        ok ==> final(ph)@ == old(ph)@.push(new_marker(ptype, pos)),
        !ok ==> final(ph)@ == old(ph)@,
{
    if -POS_LIMIT <= pos.x && pos.x <= POS_LIMIT && -POS_LIMIT <= pos.y && pos.y <= POS_LIMIT
        && ph.len() < MAX_MARKERS {
        ph.push(Pheromone { ptype, pos, age_ms: 0 });
        true
    } else {
        false
    }
}

/// Marker intensity never increases with age.
pub proof fn lemma_intensity_nonincreasing(a1: int, a2: int)
    requires
        0 <= a1 <= a2,
    ensures
        intensity_at(a2) <= intensity_at(a1),
{
    let l = PHEROMONE_LIFETIME_MS as int;
    if a1 >= l {
    } else {
        assert(intensity_at(a1) >= 0) by {
            vstd::arithmetic::div_mod::lemma_div_is_ordered(
                a1 * FULL_INTENSITY,
                (l - 1) * FULL_INTENSITY,
                l,
            );
        };
        if a2 < l {
            vstd::arithmetic::div_mod::lemma_div_is_ordered(
                a1 * FULL_INTENSITY,
                a2 * FULL_INTENSITY,
                l,
            );
        }
    }
}

/// Marker intensity is exactly 0 at lifetime expiry and not before.
pub proof fn lemma_intensity_zero_iff_expired(a: int)
    requires
        0 <= a,
    ensures
        (intensity_at(a) == 0) <==> (a >= PHEROMONE_LIFETIME_MS),
{
    let l = PHEROMONE_LIFETIME_MS as int;
    if a < l {
        assert(a * FULL_INTENSITY <= (l - 1) * FULL_INTENSITY);
        vstd::arithmetic::div_mod::lemma_div_is_ordered(
            a * FULL_INTENSITY,
            (l - 1) * FULL_INTENSITY,
            l,
        );
        assert(((l - 1) * FULL_INTENSITY) / l < FULL_INTENSITY);
    }
}

/// A marker still inside its lifetime reads strictly positive, so
/// everything the decay pass keeps is visible to the sensors.
pub proof fn lemma_live_marker_positive(a: int)
    requires
        0 <= a < PHEROMONE_LIFETIME_MS,
    ensures
        intensity_at(a) > 0,
{
    lemma_intensity_nonincreasing(a, PHEROMONE_LIFETIME_MS as int);
    lemma_intensity_zero_iff_expired(a);
}

/// A decay pass over an elapsed time of zero changes nothing:
/// intensity depends on elapsed time alone, so depositing a marker
/// and immediately decaying by `dt = 0` leaves it exactly as it was.
pub proof fn lemma_decay_zero_dt(s: Seq<Pheromone>)
    requires
        forall|i: int| 0 <= i < s.len() ==> (#[trigger] s[i]).wf(),
    ensures
        decay_seq(s, 0) == s,
    decreases s.len(),
{
    if s.len() == 0 {
        assert(decay_seq(s, 0) =~= s);
    } else {
        lemma_decay_zero_dt(s.drop_last());
        assert(s.last().wf());
        assert(aged(s.last(), 0) == s.last());
        assert(s.drop_last().push(s.last()) =~= s);
    }
}

} // verus!
