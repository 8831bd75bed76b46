//! Positions, directions, and the two tests that make a node eligible: within
//! range of the player and inside the cone the player faces.
use vstd::prelude::*;

verus! {

/// Denominator of the facing threshold: a threshold `t` stands for the cosine `t / 1000`.
pub const COSINE_SCALE: i32 = 1000;

/// A point of the world in fixed-point coordinates.
#[derive(Clone, Copy, Debug, PartialEq, Eq, Structural)]
pub struct Position {
    pub x: i32,
    pub y: i32,
    pub z: i32,
}

/// A direction the player faces. It need not be of unit length: only its
/// direction counts, and the zero vector faces nowhere.
#[derive(Clone, Copy, Debug, PartialEq, Eq, Structural)]
pub struct Direction {
    pub x: i16,
    pub y: i16,
    pub z: i16,
}

/// Squared Euclidean distance between two positions.
pub open spec fn dist_sq(a: Position, b: Position) -> int {
    let dx = b.x - a.x;
    let dy = b.y - a.y;
    let dz = b.z - a.z;
    dx * dx + dy * dy + dz * dz
}

/// Squared length of a direction.
pub open spec fn len_sq(f: Direction) -> int {
    f.x * f.x + f.y * f.y + f.z * f.z
}

/// Dot product of `f` with the vector that leads from `from` to `to`.
pub open spec fn dot_towards(f: Direction, from: Position, to: Position) -> int {
    f.x * (to.x - from.x) + f.y * (to.y - from.y) + f.z * (to.z - from.z)
}

/// `to` lies within `range` of `from`, compared on squares.
pub open spec fn within_range(from: Position, to: Position, range: u32) -> bool {
    dist_sq(from, to) <= range * range
}

/// The cosine of the angle between `f` and the vector from `from` to `to`
/// exceeds `threshold / 1000`. Where either vector is zero the cosine counts as
/// zero. Written with squares, as `dot > t * |f| * |d|` with the signs split,
/// so that no square root is taken.
pub open spec fn facing(f: Direction, from: Position, to: Position, threshold: i32) -> bool {
    let p = dot_towards(f, from, to);
    let q = len_sq(f) * dist_sq(from, to);
    let s = COSINE_SCALE as int;
    if threshold < 0 {
        p >= 0 || p * p * (s * s) < threshold * threshold * q
    } else {
        p > 0 && p * p * (s * s) > threshold * threshold * q
    }
}

/// A product is bounded by the product of the bounds of its factors.
proof fn lemma_mul_bound(a: int, b: int, ba: int, bb: int)
    requires
        -ba <= a <= ba,
        -bb <= b <= bb,
    ensures
        -(ba * bb) <= a * b <= ba * bb,
{
    assert(-(ba * bb) <= a * b <= ba * bb) by (nonlinear_arith)
        requires
            -ba <= a <= ba,
            -bb <= b <= bb,
    ;
}

/// A square is never negative.
proof fn lemma_square_nonneg(a: int)
    ensures
        a * a >= 0,
{
    assert(a * a >= 0) by (nonlinear_arith);
}

/// Squared distance between two positions, computed without overflow.
pub fn distance_squared(a: &Position, b: &Position) -> (r: i128)
    ensures
        r == dist_sq(*a, *b),
        0 <= r <= 3 * 0x1_0000_0000_0000_0000,
{
    let dx: i128 = b.x as i128 - a.x as i128;
    let dy: i128 = b.y as i128 - a.y as i128;
    let dz: i128 = b.z as i128 - a.z as i128;
    proof {
        lemma_mul_bound(dx as int, dx as int, 0x1_0000_0000, 0x1_0000_0000);
        lemma_mul_bound(dy as int, dy as int, 0x1_0000_0000, 0x1_0000_0000);
        lemma_mul_bound(dz as int, dz as int, 0x1_0000_0000, 0x1_0000_0000);
        lemma_square_nonneg(dx as int);
        lemma_square_nonneg(dy as int);
        lemma_square_nonneg(dz as int);
    }
    dx * dx + dy * dy + dz * dz
}

/// Whether `to` lies within `range` of `from`.
pub fn is_within_range(from: &Position, to: &Position, range: u32) -> (r: bool)
    ensures
        r == within_range(*from, *to, range),
{
    let d = distance_squared(from, to);
    proof {
        lemma_mul_bound(range as int, range as int, 0x1_0000_0000, 0x1_0000_0000);
    }
    let rr: i128 = range as i128 * range as i128;
    d <= rr
}

/// Whether the player at `from`, facing `f`, faces `to` within the cone whose
/// half-angle has the cosine `threshold / 1000`.
pub fn is_facing(f: &Direction, from: &Position, to: &Position, threshold: i32) -> (r: bool)
    requires
        -COSINE_SCALE <= threshold <= COSINE_SCALE,
    ensures
        r == facing(*f, *from, *to, threshold),
{
    let dx: i128 = to.x as i128 - from.x as i128;
    let dy: i128 = to.y as i128 - from.y as i128;
    let dz: i128 = to.z as i128 - from.z as i128;
    let fx: i128 = f.x as i128;
    let fy: i128 = f.y as i128;
    let fz: i128 = f.z as i128;
    proof {
        lemma_mul_bound(fx as int, dx as int, 0x8000, 0x1_0000_0000);
        lemma_mul_bound(fy as int, dy as int, 0x8000, 0x1_0000_0000);
        lemma_mul_bound(fz as int, dz as int, 0x8000, 0x1_0000_0000);
        lemma_mul_bound(fx as int, fx as int, 0x8000, 0x8000);
        lemma_mul_bound(fy as int, fy as int, 0x8000, 0x8000);
        lemma_mul_bound(fz as int, fz as int, 0x8000, 0x8000);
        lemma_square_nonneg(fx as int);
        lemma_square_nonneg(fy as int);
        lemma_square_nonneg(fz as int);
    }
    let p: i128 = fx * dx + fy * dy + fz * dz;
    let lf: i128 = fx * fx + fy * fy + fz * fz;
    let d = distance_squared(from, to);
    let s: i128 = COSINE_SCALE as i128;
    let t: i128 = threshold as i128;
    proof {
        let pb: int = 0x1_8000_0000_0000int;
        assert(0x1_8000_0000_0000int * 0x1_8000_0000_0000int * 1_000_000int
            < 0x7fff_ffff_ffff_ffff_ffff_ffff_ffff_ffffint) by (nonlinear_arith);
        lemma_mul_bound(p as int, p as int, pb, pb);
        lemma_square_nonneg(p as int);
        lemma_mul_bound(p * p, s * s, pb * pb, 1_000_000);
        lemma_mul_bound(lf as int, d as int, (3 * 0x4000_0000) as int, (3 * 0x1_0000_0000_0000_0000) as int);
        assert(3 * 0x4000_0000 * (3 * 0x1_0000_0000_0000_0000) * 1_000_000
            < 0x7fff_ffff_ffff_ffff_ffff_ffff_ffff_ffff);
        lemma_mul_bound(t as int, t as int, 1000, 1000);
        lemma_mul_bound(t * t, lf * d, 1_000_000, (3 * 0x4000_0000 * (3 * 0x1_0000_0000_0000_0000)) as int);
    }
    let lhs: i128 = p * p * (s * s);
    let rhs: i128 = t * t * (lf * d);
    proof {
        assert(t * t * (lf * d) == t * t * lf * d) by (nonlinear_arith);
    }
    if threshold < 0 {
        p >= 0 || lhs < rhs
    } else {
        p > 0 && lhs > rhs
    }
}

} // verus!
