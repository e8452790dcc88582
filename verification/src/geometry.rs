//! Integer 2D geometry: world coordinates, axis-aligned rectangles,
//! the inclusive overlap test, and the fixed-point direction model
//! used for heading-based movement.
//!
//! Positions are in milli-units, headings in millidegrees in the
//! range `[0, 360_000)`, and direction components are scaled by 1000
//! (a full-length axis component is `1000`).

use vstd::prelude::*;

verus! {

/// Largest coordinate magnitude a stored entity position may have.
pub const POS_LIMIT: i64 = 1_000_000_000;

/// Largest half-extent a stored footprint may have.
pub const HALF_LIMIT: i64 = 1_000_000_000;

/// One full turn, in millidegrees.
pub const FULL_TURN_MDEG: i64 = 360_000;

/// A point or offset in the 2D world, in milli-units.
#[derive(Clone, Copy, PartialEq, Eq, Structural, Debug)]
pub struct Vec2i {
    pub x: i64,
    pub y: i64,
}

/// An axis-aligned rectangle given by its center and half-extents.
#[derive(Clone, Copy, PartialEq, Eq, Structural, Debug)]
pub struct Rect {
    pub center: Vec2i,
    pub half: Vec2i,
}

pub open spec fn abs_int(v: int) -> int {
    if v >= 0 { v } else { -v }
}

/// A footprint is degenerate unless both half-extents are positive;
/// degenerate footprints never overlap anything.
pub open spec fn rect_valid(r: Rect) -> bool {
    r.half.x > 0 && r.half.y > 0
}

/// A rectangle whose coordinates are small enough for the overlap
/// arithmetic; every stored entity footprint satisfies this.
pub open spec fn rect_in_bounds(r: Rect) -> bool {
    &&& abs_int(r.center.x as int) <= POS_LIMIT + 1_000_000
    &&& abs_int(r.center.y as int) <= POS_LIMIT + 1_000_000
    &&& 0 <= r.half.x <= HALF_LIMIT
    &&& 0 <= r.half.y <= HALF_LIMIT
}

/// Inclusive axis-aligned overlap: touching edges count as overlap,
/// and a degenerate rectangle overlaps nothing.
pub open spec fn overlaps(a: Rect, b: Rect) -> bool {
    &&& rect_valid(a)
    &&& rect_valid(b)
    &&& abs_int(a.center.x - b.center.x) <= a.half.x + b.half.x
    &&& abs_int(a.center.y - b.center.y) <= a.half.y + b.half.y
}

/// A stored entity position: strictly inside the coordinate bound.
pub open spec fn pos_in_bounds(v: Vec2i) -> bool {
    &&& -POS_LIMIT <= v.x <= POS_LIMIT
    &&& -POS_LIMIT <= v.y <= POS_LIMIT
}

pub open spec fn clamp_int(v: int, lo: int, hi: int) -> int {
    if v < lo {
        lo
    } else if v > hi {
        hi
    } else {
        v
    }
}

/// The spatial overlap test shared by food pickup, sensing, and
/// colony drop-off detection.
pub fn collide(a: &Rect, b: &Rect) -> (r: bool)
    requires
        rect_in_bounds(*a),
        rect_in_bounds(*b),
    ensures
        r == overlaps(*a, *b),
{
    if a.half.x <= 0 || a.half.y <= 0 || b.half.x <= 0 || b.half.y <= 0 {
        return false;
    }
    let dx: i64 = if a.center.x >= b.center.x {
        a.center.x - b.center.x
    } else {
        b.center.x - a.center.x
    };
    let dy: i64 = if a.center.y >= b.center.y {
        a.center.y - b.center.y
    } else {
        b.center.y - a.center.y
    };
    dx <= a.half.x + b.half.x && dy <= a.half.y + b.half.y
}

/// Triangle-wave approximation of sine on `[0, 180_000]`
/// millidegrees, scaled by 1000; rises linearly to 1000 at 90
/// degrees and falls back to 0 at 180 degrees.
pub open spec fn half_sin(b: int) -> int {
    if b <= 90_000 {
        b / 90
    } else {
        (180_000 - b) / 90
    }
}

/// Fixed-point sine of an angle in `[0, 360_000)` millidegrees,
/// scaled by 1000.
pub open spec fn sin_milli_spec(a: int) -> int {
    if a <= 180_000 {
        half_sin(a)
    } else {
        -half_sin(a - 180_000)
    }
}

/// Fixed-point cosine, as the sine shifted by a quarter turn.
pub open spec fn cos_milli_spec(a: int) -> int {
    if a + 90_000 < 360_000 {
        sin_milli_spec(a + 90_000)
    } else {
        sin_milli_spec(a + 90_000 - 360_000)
    }
}

/// Signed division by 1000 that truncates toward zero, mirroring the
/// machine division the executable code performs.
pub open spec fn tdiv_1000(v: int) -> int {
    if v >= 0 {
        v / 1000
    } else {
        -((-v) / 1000)
    }
}

/// Truncating division shrinks magnitude: a bounded dividend gives
/// a correspondingly bounded quotient.
pub proof fn lemma_tdiv_1000_bound(v: int, b: int)
    requires
        0 <= b,
        -b <= v <= b,
    ensures
        -(b / 1000) <= tdiv_1000(v) <= b / 1000,
{
    if v >= 0 {
        vstd::arithmetic::div_mod::lemma_div_is_ordered(0, v, 1000);
        vstd::arithmetic::div_mod::lemma_div_is_ordered(v, b, 1000);
    } else {
        vstd::arithmetic::div_mod::lemma_div_is_ordered(0, -v, 1000);
        vstd::arithmetic::div_mod::lemma_div_is_ordered(-v, b, 1000);
    }
}

/// Signed division by 1_000_000 that truncates toward zero,
/// mirroring the machine division the executable code performs.
pub open spec fn tdiv_1m(v: int) -> int {
    if v >= 0 {
        v / 1_000_000
    } else {
        -((-v) / 1_000_000)
    }
}

/// Fixed-point sine of a heading, scaled by 1000.
pub fn sin_milli(a: i64) -> (r: i64)
    requires
        0 <= a < FULL_TURN_MDEG,
    ensures
        r == sin_milli_spec(a as int),
        -1000 <= r <= 1000,
{
    if a <= 180_000 {
        if a <= 90_000 {
            a / 90
        } else {
            (180_000 - a) / 90
        }
    } else {
        let b: i64 = a - 180_000;
        if b <= 90_000 {
            -(b / 90)
        } else {
            -((180_000 - b) / 90)
        }
    }
}

/// Fixed-point cosine of a heading, scaled by 1000.
pub fn cos_milli(a: i64) -> (r: i64)
    requires
        0 <= a < FULL_TURN_MDEG,
    ensures
        r == cos_milli_spec(a as int),
        -1000 <= r <= 1000,
{
    let b: i64 = if a + 90_000 < FULL_TURN_MDEG {
        a + 90_000
    } else {
        a + 90_000 - FULL_TURN_MDEG
    };
    sin_milli(b)
}

/// An offset rotated counterclockwise by a heading, in the same
/// fixed-point model the executable rotation uses.
pub open spec fn rotate_spec(off: Vec2i, heading: int) -> Vec2i {
    let s = sin_milli_spec(heading);
    let c = cos_milli_spec(heading);
    Vec2i {
        x: tdiv_1000(off.x * c - off.y * s) as i64,
        y: tdiv_1000(off.x * s + off.y * c) as i64,
    }
}

/// Division by 1000 truncating toward zero.
fn div_1000(v: i64) -> (r: i64)
    requires
        -1_000_000_000 <= v <= 1_000_000_000,
    ensures
        r == tdiv_1000(v as int),
{
    if v >= 0 {
        v / 1000
    } else {
        -((-v) / 1000)
    }
}

/// Rotates a small body-relative offset by the given heading.
pub fn rotate_offset(off: Vec2i, heading: i64) -> (r: Vec2i)
    requires
        0 <= heading < FULL_TURN_MDEG,
        -200_000 <= off.x <= 200_000,
        -200_000 <= off.y <= 200_000,
    ensures
        r == rotate_spec(off, heading as int),
        -400_000 <= r.x <= 400_000,
        -400_000 <= r.y <= 400_000,
{
    let s: i64 = sin_milli(heading);
    let c: i64 = cos_milli(heading);
    proof {
        assert(-200_000_000 <= off.x * c <= 200_000_000) by (nonlinear_arith)
            requires
                -200_000 <= off.x <= 200_000,
                -1000 <= c <= 1000,
        ;
        assert(-200_000_000 <= off.y * s <= 200_000_000) by (nonlinear_arith)
            requires
                -200_000 <= off.y <= 200_000,
                -1000 <= s <= 1000,
        ;
        assert(-200_000_000 <= off.x * s <= 200_000_000) by (nonlinear_arith)
            requires
                -200_000 <= off.x <= 200_000,
                -1000 <= s <= 1000,
        ;
        assert(-200_000_000 <= off.y * c <= 200_000_000) by (nonlinear_arith)
            requires
                -200_000 <= off.y <= 200_000,
                -1000 <= c <= 1000,
        ;
    }
    let rx: i64 = div_1000(off.x * c - off.y * s);
    let ry: i64 = div_1000(off.x * s + off.y * c);
    Vec2i { x: rx, y: ry }
}

/// Wraps an angle that strayed by less than one full turn back into
/// `[0, 360_000)`.
pub open spec fn norm_heading_spec(h: int) -> int {
    if h < 0 {
        h + FULL_TURN_MDEG
    } else if h >= FULL_TURN_MDEG {
        h - FULL_TURN_MDEG
    } else {
        h
    }
}

/// Normalizes a heading after a bounded turn.
pub fn norm_heading(h: i64) -> (r: i64)
    requires
        -FULL_TURN_MDEG < h < 2 * FULL_TURN_MDEG,
    ensures
        r == norm_heading_spec(h as int),
        0 <= r < FULL_TURN_MDEG,
{
    if h < 0 {
        h + FULL_TURN_MDEG
    } else if h >= FULL_TURN_MDEG {
        h - FULL_TURN_MDEG
    } else {
        h
    }
}

/// Clamps a coordinate back into the world bounds.
pub fn clamp_coord(v: i64) -> (r: i64)
    ensures
        r == clamp_int(v as int, -POS_LIMIT as int, POS_LIMIT as int),
{
    if v < -POS_LIMIT {
        -POS_LIMIT
    } else if v > POS_LIMIT {
        POS_LIMIT
    } else {
        v
    }
}

} // verus!
