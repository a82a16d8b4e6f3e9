//! Plane positions, displacement vectors, and the signed angle between
//! two vectors.
//!
//! Angles are whole degrees in the range `(-180, 180]`. The sign follows
//! `atan2(cross(u, v), dot(u, v))` in image coordinates: rotating `u` onto
//! `v` through a positive cross product gives a positive angle. The
//! magnitude is computed from a scaled-tangent table and stays within
//! about one degree of the exact value, which is ample for thresholds
//! expressed in whole degrees. Degenerate inputs (a zero-length vector)
//! yield the defined fallback angle `0` rather than an error.

use vstd::prelude::*;

verus! {

/// A point in image-plane pixel coordinates.
#[derive(Clone, Copy, Debug, PartialEq, Eq, Structural)]
pub struct Position {
    pub x: u32,
    pub y: u32,
}

/// A displacement between two positions. Components built by
/// `Vector::from` always fit well inside `i64`.
#[derive(Clone, Copy, Debug, PartialEq, Eq, Structural)]
pub struct Vector {
    pub dx: i64,
    pub dy: i64,
}

/// The displacement from `a` to `b`.
pub open spec fn vec_of(a: Position, b: Position) -> Vector {
    Vector { dx: (b.x - a.x) as i64, dy: (b.y - a.y) as i64 }
}

/// Cross product of two displacements; its sign picks the rotational sense.
pub open spec fn cross(u: Vector, v: Vector) -> int {
    u.dx * v.dy - u.dy * v.dx
}

/// Dot product of two displacements; its sign separates acute from obtuse.
pub open spec fn dot(u: Vector, v: Vector) -> int {
    u.dx * v.dx + u.dy * v.dy
}

/// Components small enough that cross and dot products cannot overflow.
/// Every vector built from two positions satisfies this.
pub open spec fn bounded(v: Vector) -> bool {
    -0x1_0000_0000 <= v.dx <= 0x1_0000_0000 && -0x1_0000_0000 <= v.dy <= 0x1_0000_0000
}

/// tan(d degrees) scaled by 100000 and rounded to the nearest integer,
/// for whole degrees 1 to 44. Out-of-table arguments fall back to 0,
/// but no caller consults them.
pub open spec fn tan_scaled(d: int) -> int {
    if d == 1 { 1746 }
    else if d == 2 { 3492 }
    else if d == 3 { 5241 }
    else if d == 4 { 6993 }
    else if d == 5 { 8749 }
    else if d == 6 { 10510 }
    else if d == 7 { 12278 }
    else if d == 8 { 14054 }
    else if d == 9 { 15838 }
    else if d == 10 { 17633 }
    else if d == 11 { 19438 }
    else if d == 12 { 21256 }
    else if d == 13 { 23087 }
    else if d == 14 { 24933 }
    else if d == 15 { 26795 }
    else if d == 16 { 28675 }
    else if d == 17 { 30573 }
    else if d == 18 { 32492 }
    else if d == 19 { 34433 }
    else if d == 20 { 36397 }
    else if d == 21 { 38386 }
    else if d == 22 { 40403 }
    else if d == 23 { 42447 }
    else if d == 24 { 44523 }
    else if d == 25 { 46631 }
    else if d == 26 { 48773 }
    else if d == 27 { 50953 }
    else if d == 28 { 53171 }
    else if d == 29 { 55431 }
    else if d == 30 { 57735 }
    else if d == 31 { 60086 }
    else if d == 32 { 62487 }
    else if d == 33 { 64941 }
    else if d == 34 { 67451 }
    else if d == 35 { 70021 }
    else if d == 36 { 72654 }
    else if d == 37 { 75355 }
    else if d == 38 { 78129 }
    else if d == 39 { 80978 }
    else if d == 40 { 83910 }
    else if d == 41 { 86929 }
    else if d == 42 { 90040 }
    else if d == 43 { 93252 }
    else if d == 44 { 96569 }
    else { 0 }
}

/// The largest degree `e <= d` with `p / q >= tan(e)`, i.e. the floor of
/// `atan(p / q)` in degrees as read from the table; 0 if none qualifies.
pub open spec fn lo_rec(p: int, q: int, d: int) -> int
    decreases d,
{
    if d <= 0 {
        0
    } else if p * 100000 >= q * tan_scaled(d) {
        d
    } else {
        lo_rec(p, q, d - 1)
    }
}

/// The angle of the ratio `p / q` for positive `p`, `q`, in `[0, 89]`
/// whole degrees. Ratios at or above 1 are read through the complement,
/// capped so that a strictly acute direction never reports 90.
pub open spec fn acute_spec(p: int, q: int) -> int {
    if p < q {
        lo_rec(p, q, 44)
    } else if p == q {
        45
    } else {
        if lo_rec(q, p, 44) == 0 {
            89
        } else {
            90 - lo_rec(q, p, 44)
        }
    }
}

/// The angle `atan2(c, d)` in `[0, 179]` whole degrees for `c > 0`
/// (upper half plane).
pub open spec fn half_spec(c: int, d: int) -> int {
    if d == 0 {
        90
    } else if d > 0 {
        acute_spec(c, d)
    } else {
        90 + acute_spec(-d, c)
    }
}

/// The signed whole-degree angle `atan2(c, d)` in `(-180, 180]`.
/// Both arguments zero — a degenerate direction — yields the fallback 0.
pub open spec fn angle_spec(c: int, d: int) -> int {
    if c > 0 {
        half_spec(c, d)
    } else if c < 0 {
        -half_spec(-c, d)
    } else if d < 0 {
        180
    } else {
        0
    }
}

/// The signed whole-degree angle that rotates `u` onto `v`.
pub open spec fn vector_angle(u: Vector, v: Vector) -> int {
    angle_spec(cross(u, v), dot(u, v))
}

proof fn lemma_lo_rec_range(p: int, q: int, d: int)
    requires
        0 <= d,
    ensures
        0 <= lo_rec(p, q, d) <= d,
    decreases d,
{
    if d > 0 && !(p * 100000 >= q * tan_scaled(d)) {
        lemma_lo_rec_range(p, q, d - 1);
    }
}

proof fn lemma_acute_range(p: int, q: int)
    ensures
        0 <= acute_spec(p, q) <= 89,
{
    lemma_lo_rec_range(p, q, 44);
    lemma_lo_rec_range(q, p, 44);
}

proof fn lemma_half_range(c: int, d: int)
    ensures
        0 <= half_spec(c, d) <= 179,
{
    lemma_acute_range(c, d);
    lemma_acute_range(-d, c);
}

/// The angle of any pair of vectors lies in `(-180, 180]`.
pub proof fn lemma_angle_range(u: Vector, v: Vector)
    ensures
        -180 < vector_angle(u, v) <= 180,
{
    lemma_half_range(cross(u, v), dot(u, v));
    lemma_half_range(-cross(u, v), dot(u, v));
}

/// The angle from a displacement to itself is zero: for two distinct
/// positions `a`, `b`, rotating `a -> b` onto itself needs no turn.
pub proof fn lemma_angle_of_self(a: Position, b: Position)
    requires
        a != b,
    ensures
        vector_angle(vec_of(a, b), vec_of(a, b)) == 0,
{
    let u = vec_of(a, b);
    assert(u.dx * u.dy - u.dy * u.dx == 0) by (nonlinear_arith);
    assert(u.dx * u.dx + u.dy * u.dy >= 0) by (nonlinear_arith);
}

/// The defined fallback for degenerate input: a zero-length vector forms
/// angle 0 with every vector, on either side.
pub proof fn lemma_zero_vector_angle(z: Vector, v: Vector)
    requires
        z.dx == 0 && z.dy == 0,
    ensures
        vector_angle(z, v) == 0,
        vector_angle(v, z) == 0,
{
    assert(z.dx * v.dy - z.dy * v.dx == 0) by (nonlinear_arith)
        requires z.dx == 0 && z.dy == 0;
    assert(v.dx * z.dy - v.dy * z.dx == 0) by (nonlinear_arith)
        requires z.dx == 0 && z.dy == 0;
    assert(z.dx * v.dx + z.dy * v.dy == 0) by (nonlinear_arith)
        requires z.dx == 0 && z.dy == 0;
    assert(v.dx * z.dx + v.dy * z.dy == 0) by (nonlinear_arith)
        requires z.dx == 0 && z.dy == 0;
}

/// Swapping the operands flips the sign of the angle, and the result lies
/// in `(-180, 180]`. The one family of inputs where the flip cannot hold
/// is excluded: exactly opposite directions, where both orders give 180
/// because -180 is outside the range.
pub proof fn lemma_angle_antisymmetric(u: Vector, v: Vector)
    requires
        u.dx != 0 || u.dy != 0,
        v.dx != 0 || v.dy != 0,
        !(cross(u, v) == 0 && dot(u, v) < 0),
    ensures
        vector_angle(u, v) == -vector_angle(v, u),
        -180 < vector_angle(u, v) <= 180,
{
    assert(v.dx * u.dy - v.dy * u.dx == -(u.dx * v.dy - u.dy * v.dx)) by (nonlinear_arith);
    assert(v.dx * u.dx + v.dy * u.dy == u.dx * v.dx + u.dy * v.dy) by (nonlinear_arith);
    lemma_angle_range(u, v);
}

impl Vector {
    /// The displacement from `a` to `b`.
    pub fn from(a: Position, b: Position) -> (v: Vector)
        ensures
            v == vec_of(a, b),
            bounded(v),
    {
        Vector { dx: b.x as i64 - a.x as i64, dy: b.y as i64 - a.y as i64 }
    }

    /// The signed whole-degree angle that rotates `self` onto `other`,
    /// in `(-180, 180]`; 0 when either vector is degenerate.
    pub fn angle(self, other: Vector) -> (r: i64)
        requires
            bounded(self),
            bounded(other),
        ensures
            r == vector_angle(self, other),
            -180 < r <= 180,
    {
        proof {
            lemma_product_bounds(self.dx as int, other.dy as int);
            lemma_product_bounds(self.dy as int, other.dx as int);
            lemma_product_bounds(self.dx as int, other.dx as int);
            lemma_product_bounds(self.dy as int, other.dy as int);
            lemma_angle_range(self, other);
        }
        let c: i128 = self.dx as i128 * other.dy as i128 - self.dy as i128 * other.dx as i128;
        let d: i128 = self.dx as i128 * other.dx as i128 + self.dy as i128 * other.dy as i128;
        if c > 0 {
            half_angle(c, d)
        } else if c < 0 {
            -half_angle(-c, d)
        } else if d < 0 {
            180
        } else {
            0
        }
    }
}

/// For factors of at most 2^32 in magnitude the product stays within 2^64.
proof fn lemma_product_bounds(a: int, b: int)
    requires
        -0x1_0000_0000 <= a <= 0x1_0000_0000,
        -0x1_0000_0000 <= b <= 0x1_0000_0000,
    ensures
        -0x1_0000_0000_0000_0000 <= a * b <= 0x1_0000_0000_0000_0000,
{
    assert(-0x1_0000_0000_0000_0000 <= a * b <= 0x1_0000_0000_0000_0000) by (nonlinear_arith)
        requires
            -0x1_0000_0000 <= a <= 0x1_0000_0000,
            -0x1_0000_0000 <= b <= 0x1_0000_0000;
}

fn half_angle(c: i128, d: i128) -> (r: i64)
    requires
        c > 0,
        c <= 0x2_0000_0000_0000_0000,
        -0x2_0000_0000_0000_0000 <= d <= 0x2_0000_0000_0000_0000,
    ensures
        r == half_spec(c as int, d as int),
        0 <= r <= 179,
{
    if d == 0 {
        90
    } else if d > 0 {
        acute_angle(c, d)
    } else {
        90 + acute_angle(-d, c)
    }
}

fn acute_angle(p: i128, q: i128) -> (r: i64)
    requires
        p > 0,
        q > 0,
        p <= 0x2_0000_0000_0000_0000,
        q <= 0x2_0000_0000_0000_0000,
    ensures
        r == acute_spec(p as int, q as int),
        0 <= r <= 89,
{
    proof {
        lemma_acute_range(p as int, q as int);
    }
    if p < q {
        table_floor(p, q)
    } else if p == q {
        45
    } else {
        let t = table_floor(q, p);
        if t == 0 {
            89
        } else {
            90 - t
        }
    }
}

/// The largest whole degree `d <= 44` whose tangent does not exceed
/// `p / q`, by downward scan over the table.
fn table_floor(p: i128, q: i128) -> (r: i64)
    requires
        p >= 0,
        q > 0,
        p <= 0x2_0000_0000_0000_0000,
        q <= 0x2_0000_0000_0000_0000,
    ensures
        r == lo_rec(p as int, q as int, 44),
        0 <= r <= 44,
{
    proof {
        lemma_lo_rec_range(p as int, q as int, 44);
    }
    let mut d: i64 = 44;
    loop
        invariant
            0 < d <= 44,
            p >= 0,
            q > 0,
            p <= 0x2_0000_0000_0000_0000,
            q <= 0x2_0000_0000_0000_0000,
            lo_rec(p as int, q as int, 44) == lo_rec(p as int, q as int, d as int),
        decreases d,
    {
        if p * 100000 >= q * tan_lookup(d) as i128 {
            return d;
        }
        if d == 1 {
            proof {
                reveal_with_fuel(lo_rec, 3);
            }
            return 0;
        }
        d = d - 1;
    }
}

/// Table lookup matching `tan_scaled` on the degrees 1 to 44.
fn tan_lookup(d: i64) -> (r: i64)
    requires
        1 <= d <= 44,
    ensures
        r == tan_scaled(d as int),
{
    if d == 1 { 1746 }
    else if d == 2 { 3492 }
    else if d == 3 { 5241 }
    else if d == 4 { 6993 }
    else if d == 5 { 8749 }
    else if d == 6 { 10510 }
    else if d == 7 { 12278 }
    else if d == 8 { 14054 }
    else if d == 9 { 15838 }
    else if d == 10 { 17633 }
    else if d == 11 { 19438 }
    else if d == 12 { 21256 }
    else if d == 13 { 23087 }
    else if d == 14 { 24933 }
    else if d == 15 { 26795 }
    else if d == 16 { 28675 }
    else if d == 17 { 30573 }
    else if d == 18 { 32492 }
    else if d == 19 { 34433 }
    else if d == 20 { 36397 }
    else if d == 21 { 38386 }
    else if d == 22 { 40403 }
    else if d == 23 { 42447 }
    else if d == 24 { 44523 }
    else if d == 25 { 46631 }
    else if d == 26 { 48773 }
    else if d == 27 { 50953 }
    else if d == 28 { 53171 }
    else if d == 29 { 55431 }
    else if d == 30 { 57735 }
    else if d == 31 { 60086 }
    else if d == 32 { 62487 }
    else if d == 33 { 64941 }
    else if d == 34 { 67451 }
    else if d == 35 { 70021 }
    else if d == 36 { 72654 }
    else if d == 37 { 75355 }
    else if d == 38 { 78129 }
    else if d == 39 { 80978 }
    else if d == 40 { 83910 }
    else if d == 41 { 86929 }
    else if d == 42 { 90040 }
    else if d == 43 { 93252 }
    else { 96569 }
}

} // verus!
