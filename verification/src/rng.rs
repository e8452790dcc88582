//! Deterministic random-number streams.
//!
//! Every random decision the simulation makes is drawn from an
//! explicit [`RandomStream`]: a recorded sequence of raw values plus
//! a cursor. A stream can be scripted for reproducible runs or
//! filled from the system generator. Draws map each raw value into
//! the requested inclusive range by a remainder rule, so the same
//! stream always yields the same trajectory.

use vstd::prelude::*;
use rand::RngExt;

verus! {

/// Largest magnitude a raw stream value may have.
pub const RAW_BOUND: i64 = 1_000_000;

/// How a raw stream value is mapped into an inclusive draw range:
/// values already inside the range are kept as they are, values
/// outside are folded in by remainder, so the mapping is total and
/// deterministic.
pub open spec fn draw_map(v: int, lo: int, hi: int) -> int
    recommends
        lo <= hi,
{
    let size = hi - lo + 1;
    if v >= lo {
        lo + ((v - lo) % size)
    } else {
        let m = (lo - v) % size;
        if m == 0 {
            lo
        } else {
            lo + size - m
        }
    }
}

/// Relies on rand::RngExt::random_range on the generator returned by
/// rand::rng(): the result lies within the given inclusive range,
/// and the call panics only on an empty range, which `lo <= hi`
/// rules out.
#[verifier::external_body]
fn random_in(lo: i64, hi: i64) -> (r: i64)
    requires
        lo <= hi,
    ensures
        lo <= r <= hi,
{
    rand::rng().random_range(lo..=hi)
}

/// A replayable source of random values: raw values plus a cursor.
/// When the recorded values run out, draws fall back to raw value 0,
/// so a stream is total and a run never fails for want of entropy.
pub struct RandomStream {
    pub values: Vec<i64>,
    pub cursor: usize,
}

impl RandomStream {
    /// Raw values bounded and the cursor within the recording.
    pub open spec fn wf(self) -> bool {
        &&& self.cursor <= self.values@.len()
        &&& forall|i: int|
            0 <= i < self.values@.len() ==> -RAW_BOUND <= #[trigger] self.values@[i] <= RAW_BOUND
    }

    /// The raw value the next draw will consume.
    pub open spec fn peek_raw(self) -> int {
        if self.cursor < self.values@.len() {
            self.values@[self.cursor as int] as int
        } else {
            0
        }
    }

    /// A scripted stream; each supplied value is clamped into the
    /// raw bound so any recording is usable.
    pub fn from_values(values: &Vec<i64>) -> (s: Self)
        ensures
            s.wf(),
            s.cursor == 0,
            s.values@.len() == values@.len(),
            forall|i: int|
                0 <= i < values@.len() ==> #[trigger] s.values@[i] == crate::geometry::clamp_int(
                    values@[i] as int,
                    -RAW_BOUND as int,
                    RAW_BOUND as int,
                ),
    {
        let mut out: Vec<i64> = Vec::new();
        let mut i: usize = 0;
        while i < values.len()
            invariant
                i <= values@.len(),
                out@.len() == i,
                forall|j: int|
                    0 <= j < i ==> #[trigger] out@[j] == crate::geometry::clamp_int(
                        values@[j] as int,
                        -RAW_BOUND as int,
                        RAW_BOUND as int,
                    ),
            decreases values@.len() - i,
        {
            let v: i64 = values[i];
            let c: i64 = if v < -RAW_BOUND {
                -RAW_BOUND
            } else if v > RAW_BOUND {
                RAW_BOUND
            } else {
                v
            };
            out.push(c);
            i = i + 1;
        }
        RandomStream { values: out, cursor: 0 }
    }

    /// A stream of `n` values drawn from the system generator; only
    /// the raw bound is known of what it holds.
    pub fn from_entropy(n: usize) -> (s: Self)
        ensures
            s.wf(),
            s.cursor == 0,
            s.values@.len() == n,
    {
        let mut out: Vec<i64> = Vec::new();
        let mut i: usize = 0;
        while i < n
            invariant
                i <= n,
                out@.len() == i,
                forall|j: int|
                    0 <= j < i ==> -RAW_BOUND <= #[trigger] out@[j] <= RAW_BOUND,
            decreases n - i,
        {
            out.push(random_in(-RAW_BOUND, RAW_BOUND));
            i = i + 1;
        }
        RandomStream { values: out, cursor: 0 }
    }

    /// Draws the next value, mapped into `[lo, hi]`. Consumes one
    /// recorded value if any is left; an exhausted stream keeps its
    /// cursor and behaves as if it read a raw 0.
    pub fn draw(&mut self, lo: i64, hi: i64) -> (r: i64)
        requires
            old(self).wf(),
            -RAW_BOUND <= lo <= hi <= RAW_BOUND,
        ensures
            final(self).wf(),
            final(self).values@ == old(self).values@,
            r == draw_map(old(self).peek_raw(), lo as int, hi as int),
            lo <= r <= hi,
            final(self).cursor == if old(self).cursor < old(self).values@.len() {
                old(self).cursor + 1
            } else {
                old(self).cursor as int
            },
    {
        let raw: i64 = if self.cursor < self.values.len() {
            let v: i64 = self.values[self.cursor];
            self.cursor = self.cursor + 1;
            v
        } else {
            0
        };
        let size: i64 = hi - lo + 1;
        if raw >= lo {
            lo + ((raw - lo) % size)
        } else {
            let m: i64 = (lo - raw) % size;
            if m == 0 {
                lo
            } else {
                lo + size - m
            }
        }
    }
}

} // verus!
