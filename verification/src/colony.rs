//! The home colony: its footprint, the monotone food-store
//! counter, drop-off detection, and initial population spawning.

use vstd::prelude::*;
use crate::geometry::{Vec2i, Rect, pos_in_bounds, overlaps, collide};
use crate::ant::{Ant, AntState, spawned_ant, spawn_ant};
use crate::rng::RandomStream;

verus! {

/// Half-extent of a colony's footprint, in milli-units.
pub const COLONY_HALF: i64 = 50_000;

/// A colony: spatial footprint plus the aggregate food counter.
/// The counter only ever grows, and only by drop-off events.
#[derive(Clone, Copy, PartialEq, Eq, Structural, Debug)]
pub struct Colony {
    pub pos: Vec2i,
    pub food_store: u64,
}

impl Colony {
    pub open spec fn wf(self) -> bool {
        pos_in_bounds(self.pos)
    }

    /// The colony's drop-off footprint.
    pub open spec fn rect_spec(self) -> Rect {
        Rect { center: self.pos, half: Vec2i { x: COLONY_HALF, y: COLONY_HALF } }
    }

    pub fn rect(&self) -> (r: Rect)
        ensures
            r == self.rect_spec(),
    {
        Rect { center: self.pos, half: Vec2i { x: COLONY_HALF, y: COLONY_HALF } }
    }

    /// A new colony with an empty food store.
    pub fn new(pos: Vec2i) -> (c: Colony)
        requires
            pos_in_bounds(pos),
        ensures
            c.wf(),
            c.pos == pos,
            c.food_store == 0,
    {
        Colony { pos, food_store: 0 }
    }
}

/// The colony after one delivery is credited; the counter sticks at
/// its machine cap rather than wrap.
pub open spec fn credited(c: Colony) -> Colony {
    Colony {
        food_store: if c.food_store < u64::MAX {
            (c.food_store + 1) as u64
        } else {
            c.food_store
        },
        ..c
    }
}

/// The drop-off step: a returning ant standing on its own colony's
/// footprint delivers — the colony is credited exactly once and the
/// ant forages again. A foraging ant, a dangling colony index, or a
/// miss leaves everything unchanged.
pub open spec fn feed_spec(a: Ant, cols: Seq<Colony>) -> (Ant, Seq<Colony>) {
    if a.state == AntState::ReturningHome && a.colony < cols.len() && overlaps(
        a.rect_spec(),
        cols[a.colony as int].rect_spec(),
    ) {
        (
            Ant { state: AntState::Foraging, ..a },
            cols.update(a.colony as int, credited(cols[a.colony as int])),
        )
    } else {
        (a, cols)
    }
}

/// Colony drop-off detection and crediting for one ant: the
/// `ReturningHome → Foraging` transition happens iff the carrying
/// ant overlaps its own colony's footprint this tick, and exactly
/// that colony's store is credited by exactly one.
pub fn feed_colony(a: &mut Ant, colonies: &mut Vec<Colony>) -> (delivered: bool)
    requires
        old(a).wf(),
        forall|i: int| 0 <= i < old(colonies)@.len() ==> (#[trigger] old(colonies)@[i]).wf(),
    ensures
        final(a).wf(),
        forall|i: int| 0 <= i < final(colonies)@.len() ==> (#[trigger] final(colonies)@[i]).wf(),
        (*final(a), final(colonies)@) == feed_spec(*old(a), old(colonies)@),
        delivered == (old(a).state == AntState::ReturningHome && old(a).colony
            < old(colonies)@.len() && overlaps(
            old(a).rect_spec(),
            old(colonies)@[old(a).colony as int].rect_spec(),
        )),
        delivered ==> final(a).state == AntState::Foraging && final(colonies)@[old(
            a,
        ).colony as int].food_store == credited(old(colonies)@[old(a).colony as int]).food_store,
        !delivered ==> *final(a) == *old(a) && final(colonies)@ == old(colonies)@,
        (final(a).state != old(a).state) == delivered,
        final(colonies)@.len() == old(colonies)@.len(),
{
    let returning: bool = match a.state {
        AntState::Foraging => false,
        AntState::ReturningHome => true,
    };
    if !returning {
        return false;
    }
    let idx: usize = a.colony;
    if idx >= colonies.len() {
        return false;
    }
    let c: Colony = colonies[idx];
    let arect: Rect = a.rect();
    let crect: Rect = c.rect();
    if collide(&arect, &crect) {
        let ns: u64 = if c.food_store < u64::MAX {
            c.food_store + 1
        } else {
            c.food_store
        };
        colonies[idx] = Colony { pos: c.pos, food_store: ns };
        a.state = AntState::Foraging;
        true
    } else {
        false
    }
}

/// The ants and stream cursor that spawning `n` ants at a colony
/// produces: each ant takes its heading from the next stream value.
pub open spec fn spawn_ants_spec(
    ants: Seq<Ant>,
    colony: usize,
    pos: Vec2i,
    values: Seq<i64>,
    cur: int,
    n: nat,
) -> (Seq<Ant>, int)
    decreases n,
{
    if n == 0 {
        (ants, cur)
    } else {
        let peek: int = if cur < values.len() {
            values[cur] as int
        } else {
            0
        };
        let next_cur: int = if cur < values.len() {
            cur + 1
        } else {
            cur
        };
        spawn_ants_spec(
            ants.push(spawned_ant(colony, pos, peek)),
            colony,
            pos,
            values,
            next_cur,
            (n - 1) as nat,
        )
    }
}

/// Founds a colony at a position and spawns its initial ant
/// population there, each ant with a randomized initial heading and
/// a back-reference to the new colony.
pub fn spawn_colony(
    colonies: &mut Vec<Colony>,
    ants: &mut Vec<Ant>,
    pos: Vec2i,
    count: usize,
    stream: &mut RandomStream,
)
    requires
        pos_in_bounds(pos),
        old(stream).wf(),
    ensures
        final(stream).wf(),
        final(stream).values@ == old(stream).values@,
        final(colonies)@ == old(colonies)@.push(
            Colony { pos, food_store: 0 },
        ),
        (final(ants)@, final(stream).cursor as int) == spawn_ants_spec(
            old(ants)@,
            old(colonies)@.len() as usize,
            pos,
            old(stream).values@,
            old(stream).cursor as int,
            count as nat,
        ),
        final(ants)@.len() == old(ants)@.len() + count,
        forall|k: int| 0 <= k < old(ants)@.len() ==> final(ants)@[k] == old(ants)@[k],
        forall|k: int|
            old(ants)@.len() <= k < final(ants)@.len() ==> {
                &&& (#[trigger] final(ants)@[k]).wf()
                &&& final(ants)@[k].state == AntState::Foraging
                &&& final(ants)@[k].colony == old(colonies)@.len()
                &&& final(ants)@[k].pos == pos
            },
{
    let colony_id: usize = colonies.len();
    colonies.push(Colony::new(pos));
    let ghost values = old(stream).values@;
    let mut j: usize = 0;
    while j < count
        invariant
            j <= count,
            stream.wf(),
            stream.values@ == old(stream).values@,
            spawn_ants_spec(
                old(ants)@,
                colony_id,
                pos,
                values,
                old(stream).cursor as int,
                count as nat,
            ) == spawn_ants_spec(
                ants@,
                colony_id,
                pos,
                values,
                stream.cursor as int,
                (count - j) as nat,
            ),
            pos_in_bounds(pos),
            values == old(stream).values@,
            colony_id == old(colonies)@.len(),
            ants@.len() == old(ants)@.len() + j,
            forall|k: int| 0 <= k < old(ants)@.len() ==> ants@[k] == old(ants)@[k],
            forall|k: int|
                old(ants)@.len() <= k < ants@.len() ==> {
                    &&& (#[trigger] ants@[k]).wf()
                    &&& ants@[k].state == AntState::Foraging
                    &&& ants@[k].colony == colony_id
                    &&& ants@[k].pos == pos
                },
        decreases count - j,
    {
        spawn_ant(ants, colony_id, pos, stream);
        j = j + 1;
    }
}

} // verus!
