//! Three-component fixed-point vectors: squared distances, integer
//! Euclidean distance, and exact truncating moves along a direction.

use vstd::prelude::*;

use crate::math::{
    isqrt, lemma_sqrt_floor_bounds, lemma_sqrt_floor_contains, mul_div, mul_div_i64, sqrt_floor,
};

verus! {

/// Largest coordinate magnitude the geometric operations accept,
/// in fixed-point subunits (one million world units).
pub const COORD_LIMIT: i64 = 1_000_000_000_000;

/// A point or direction in world space, in fixed-point subunits.
#[derive(Clone, Copy, PartialEq, Eq, Structural, Debug)]
pub struct Vec3Fix {
    pub x: i64,
    pub y: i64,
    pub z: i64,
}

impl Vec3Fix {
    /// All three coordinates are within `COORD_LIMIT`.
    pub open spec fn in_range(self) -> bool {
        &&& -COORD_LIMIT <= self.x <= COORD_LIMIT
        &&& -COORD_LIMIT <= self.y <= COORD_LIMIT
        &&& -COORD_LIMIT <= self.z <= COORD_LIMIT
    }

    pub fn new(x: i64, y: i64, z: i64) -> (r: Vec3Fix)
        ensures
            r == (Vec3Fix { x, y, z }),
    {
        Vec3Fix { x, y, z }
    }
}

/// Squared Euclidean length of the vector `(x, y, z)`.
pub open spec fn len_sq(x: int, y: int, z: int) -> int {
    x * x + y * y + z * z
}

/// Squared Euclidean distance between two points.
pub open spec fn dist_sq(a: Vec3Fix, b: Vec3Fix) -> int {
    len_sq(a.x - b.x, a.y - b.y, a.z - b.z)
}

/// The Euclidean distance between two points, rounded down.
pub open spec fn dist(a: Vec3Fix, b: Vec3Fix) -> int {
    sqrt_floor(dist_sq(a, b) as nat) as int
}

/// A square of a bounded value, exactly, in 128 bits.
fn sq_i64(v: i64) -> (r: i128)
    requires
        -3 * COORD_LIMIT <= v <= 3 * COORD_LIMIT,
    ensures
        r == v as int * v as int,
        0 <= r <= 9_000_000_000_000_000_000_000_000i128,
{
    proof {
        assert(0 <= v as int * v as int <= 9_000_000_000_000_000_000_000_000int) by (nonlinear_arith)
            requires
                -3_000_000_000_000 <= v as int <= 3_000_000_000_000,
        ;
    }
    (v as i128) * (v as i128)
}

/// Squared distance, exactly, in 128 bits.
pub fn dist_sq_i128(a: Vec3Fix, b: Vec3Fix) -> (r: i128)
    requires
        a.in_range(),
        b.in_range(),
    ensures
        r == dist_sq(a, b),
        0 <= r <= 27_000_000_000_000_000_000_000_000i128,
{
    let dx = a.x - b.x;
    let dy = a.y - b.y;
    let dz = a.z - b.z;
    sq_i64(dx) + sq_i64(dy) + sq_i64(dz)
}

/// Euclidean distance, rounded down.
pub fn distance(a: Vec3Fix, b: Vec3Fix) -> (r: i64)
    requires
        a.in_range(),
        b.in_range(),
    ensures
        r == dist(a, b),
        0 <= r <= 6_000_000_000_000,
{
    let sq = dist_sq_i128(a, b);
    let root = isqrt(sq as u128);
    proof {
        let n = dist_sq(a, b) as nat;
        lemma_sqrt_floor_bounds(n);
        assert(sqrt_floor(n) <= 6_000_000_000_000) by (nonlinear_arith)
            requires
                sqrt_floor(n) * sqrt_floor(n) <= n,
                n <= 27_000_000_000_000_000_000_000_000int,
        ;
    }
    root as i64
}

/// A coordinate never exceeds the Euclidean distance: each squared
/// component is at most the squared length.
pub proof fn lemma_component_le_dist(a: Vec3Fix, b: Vec3Fix)
    ensures
        -dist(a, b) <= a.x - b.x <= dist(a, b),
        -dist(a, b) <= a.y - b.y <= dist(a, b),
        -dist(a, b) <= a.z - b.z <= dist(a, b),
{
    let dx = a.x - b.x;
    let dy = a.y - b.y;
    let dz = a.z - b.z;
    let n = dist_sq(a, b);
    assert(0 <= dx * dx && 0 <= dy * dy && 0 <= dz * dz) by (nonlinear_arith);
    let mx: nat = (if dx >= 0 {
        dx
    } else {
        -dx
    }) as nat;
    let my: nat = (if dy >= 0 {
        dy
    } else {
        -dy
    }) as nat;
    let mz: nat = (if dz >= 0 {
        dz
    } else {
        -dz
    }) as nat;
    assert(mx * mx == dx * dx) by (nonlinear_arith)
        requires
            mx == dx || mx == -dx,
    ;
    assert(my * my == dy * dy) by (nonlinear_arith)
        requires
            my == dy || my == -dy,
    ;
    assert(mz * mz == dz * dz) by (nonlinear_arith)
        requires
            mz == dz || mz == -dz,
    ;
    lemma_sqrt_floor_contains(n as nat, mx);
    lemma_sqrt_floor_contains(n as nat, my);
    lemma_sqrt_floor_contains(n as nat, mz);
}

/// Componentwise sum.
pub fn add(a: Vec3Fix, b: Vec3Fix) -> (r: Vec3Fix)
    requires
        -i64::MAX <= a.x + b.x <= i64::MAX,
        -i64::MAX <= a.y + b.y <= i64::MAX,
        -i64::MAX <= a.z + b.z <= i64::MAX,
    ensures
        r.x == a.x + b.x,
        r.y == a.y + b.y,
        r.z == a.z + b.z,
{
    Vec3Fix { x: a.x + b.x, y: a.y + b.y, z: a.z + b.z }
}

/// Componentwise difference.
pub fn sub(a: Vec3Fix, b: Vec3Fix) -> (r: Vec3Fix)
    requires
        -i64::MAX <= a.x - b.x <= i64::MAX,
        -i64::MAX <= a.y - b.y <= i64::MAX,
        -i64::MAX <= a.z - b.z <= i64::MAX,
    ensures
        r.x == a.x - b.x,
        r.y == a.y - b.y,
        r.z == a.z - b.z,
{
    Vec3Fix { x: a.x - b.x, y: a.y - b.y, z: a.z - b.z }
}

/// Where a point lands after moving `step` subunits from `pos` straight
/// toward `target`: each coordinate moves by the truncated proportional
/// share, so the result stays between `pos` and `target` componentwise.
pub open spec fn moved_toward(pos: Vec3Fix, target: Vec3Fix, step: int) -> (int, int, int) {
    let d = dist(pos, target);
    (
        pos.x + mul_div(target.x - pos.x, step, d),
        pos.y + mul_div(target.y - pos.y, step, d),
        pos.z + mul_div(target.z - pos.z, step, d),
    )
}

/// Move `step` subunits from `pos` toward `target` (`step` below the
/// distance), truncating each coordinate toward `pos`.
pub fn advance_toward(pos: Vec3Fix, target: Vec3Fix, step: i64) -> (r: Vec3Fix)
    requires
        pos.in_range(),
        target.in_range(),
        0 <= step < dist(pos, target),
    ensures
        (r.x as int, r.y as int, r.z as int) == moved_toward(pos, target, step as int),
        r.x == pos.x + mul_div(target.x - pos.x, step as int, dist(pos, target)),
        r.y == pos.y + mul_div(target.y - pos.y, step as int, dist(pos, target)),
        r.z == pos.z + mul_div(target.z - pos.z, step as int, dist(pos, target)),
        r.in_range(),
{
    let d = distance(pos, target);
    let dx = target.x - pos.x;
    let dy = target.y - pos.y;
    let dz = target.z - pos.z;
    proof {
        crate::math::lemma_mul_div_between(dx as int, step as int, d as int);
        crate::math::lemma_mul_div_between(dy as int, step as int, d as int);
        crate::math::lemma_mul_div_between(dz as int, step as int, d as int);
    }
    let mx = mul_div_i64(dx, step, d);
    let my = mul_div_i64(dy, step, d);
    let mz = mul_div_i64(dz, step, d);
    Vec3Fix { x: pos.x + mx, y: pos.y + my, z: pos.z + mz }
}

/// Where a point lands after travelling `travel` subunits along the
/// (not necessarily normalised) direction `dir`: each coordinate gains
/// the truncated share `travel * dir_i / |dir|`; a zero direction moves
/// nothing.
pub open spec fn moved_along(pos: Vec3Fix, dir: Vec3Fix, travel: int) -> (int, int, int) {
    let n = sqrt_floor(len_sq(dir.x as int, dir.y as int, dir.z as int) as nat);
    if n == 0 {
        (pos.x as int, pos.y as int, pos.z as int)
    } else {
        (
            pos.x + mul_div(travel, dir.x as int, n as int),
            pos.y + mul_div(travel, dir.y as int, n as int),
            pos.z + mul_div(travel, dir.z as int, n as int),
        )
    }
}

/// Travel `travel` subunits along `dir` from `pos`. Each coordinate
/// changes by at most `travel`.
pub fn advance_along(pos: Vec3Fix, dir: Vec3Fix, travel: i64) -> (r: Vec3Fix)
    requires
        dir.in_range(),
        0 <= travel,
        -COORD_LIMIT <= pos.x - travel && pos.x + travel <= COORD_LIMIT,
        -COORD_LIMIT <= pos.y - travel && pos.y + travel <= COORD_LIMIT,
        -COORD_LIMIT <= pos.z - travel && pos.z + travel <= COORD_LIMIT,
    ensures
        (r.x as int, r.y as int, r.z as int) == moved_along(pos, dir, travel as int),
        r.in_range(),
        -travel <= r.x - pos.x <= travel,
        -travel <= r.y - pos.y <= travel,
        -travel <= r.z - pos.z <= travel,
{
    let zero = Vec3Fix { x: 0, y: 0, z: 0 };
    let n = distance(dir, zero);
    proof {
        assert(dist_sq(dir, zero) == len_sq(dir.x as int, dir.y as int, dir.z as int));
    }
    if n == 0 {
        return Vec3Fix { x: pos.x, y: pos.y, z: pos.z };
    }
    proof {
        lemma_component_le_dist(dir, zero);
        crate::math::lemma_mul_div_shrinks(travel as int, dir.x as int, n as int);
        crate::math::lemma_mul_div_shrinks(travel as int, dir.y as int, n as int);
        crate::math::lemma_mul_div_shrinks(travel as int, dir.z as int, n as int);
    }
    let mx = mul_div_i64(travel, dir.x, n);
    let my = mul_div_i64(travel, dir.y, n);
    let mz = mul_div_i64(travel, dir.z, n);
    Vec3Fix { x: pos.x + mx, y: pos.y + my, z: pos.z + mz }
}

} // verus!
