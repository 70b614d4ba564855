//! Integer three-component vectors and the algebraic identities of the
//! cross product that the look-at construction rests on.

use vstd::prelude::*;

verus! {

/// Largest coordinate magnitude the camera transforms accept.
///
/// The view-matrix construction multiplies up to four coordinates together
/// (a position dotted with a double cross product); with every coordinate
/// bounded by this constant, every intermediate value stays well inside
/// `i64`.
pub const MAX_COORD: i64 = 10_000;

/// A three-component vector with exact integer coordinates.
///
/// Callers pick the grid: directions and up references may be scaled by any
/// positive factor without changing the camera basis they induce, and
/// positions are taken directly on the grid.
#[derive(Clone, Copy, PartialEq, Eq, Structural, Debug)]
pub struct Vec3 {
    pub x: i64,
    pub y: i64,
    pub z: i64,
}

/// Every coordinate of `v` lies in `[-MAX_COORD, MAX_COORD]`.
pub open spec fn in_coord_range(v: Vec3) -> bool {
    &&& -MAX_COORD <= v.x <= MAX_COORD
    &&& -MAX_COORD <= v.y <= MAX_COORD
    &&& -MAX_COORD <= v.z <= MAX_COORD
}

/// Every coordinate of `v` lies in `[-m, m]`.
pub open spec fn bounded(v: Vec3, m: int) -> bool {
    &&& -m <= v.x <= m
    &&& -m <= v.y <= m
    &&& -m <= v.z <= m
}

/// `v` is the zero vector.
pub open spec fn is_zero(v: Vec3) -> bool {
    v.x == 0 && v.y == 0 && v.z == 0
}

/// Dot product of `a` and `b`.
pub open spec fn spec_dot(a: Vec3, b: Vec3) -> int {
    a.x * b.x + a.y * b.y + a.z * b.z
}

/// Squared Euclidean length of `v`.
pub open spec fn spec_norm_sq(v: Vec3) -> int {
    spec_dot(v, v)
}

/// First component of the cross product `a x b`.
pub open spec fn spec_cross_x(a: Vec3, b: Vec3) -> int {
    a.y * b.z - a.z * b.y
}

/// Second component of the cross product `a x b`.
pub open spec fn spec_cross_y(a: Vec3, b: Vec3) -> int {
    a.z * b.x - a.x * b.z
}

/// Third component of the cross product `a x b`.
pub open spec fn spec_cross_z(a: Vec3, b: Vec3) -> int {
    a.x * b.y - a.y * b.x
}

/// The cross product `a x b` is the zero vector.
pub open spec fn cross_is_zero(a: Vec3, b: Vec3) -> bool {
    spec_cross_x(a, b) == 0 && spec_cross_y(a, b) == 0 && spec_cross_z(a, b) == 0
}

/// Squared Euclidean length of the cross product `a x b`.
pub open spec fn spec_cross_norm_sq(a: Vec3, b: Vec3) -> int {
    spec_cross_x(a, b) * spec_cross_x(a, b) + spec_cross_y(a, b) * spec_cross_y(a, b)
        + spec_cross_z(a, b) * spec_cross_z(a, b)
}

/// A product of values bounded in magnitude is bounded by the product of
/// the bounds, and that product is itself nonnegative.
pub proof fn lemma_mul_bound(a: int, b: int, ma: int, mb: int) by (nonlinear_arith)
    requires
        -ma <= a <= ma,
        -mb <= b <= mb,
        0 <= ma,
        0 <= mb,
    ensures
        -(ma * mb) <= a * b <= ma * mb,
        0 <= ma * mb,
{
}

/// A product of two positive values is positive.
pub proof fn lemma_mul_pos(a: int, b: int) by (nonlinear_arith)
    requires
        0 < a,
        0 < b,
    ensures
        0 < a * b,
{
}

/// Cross product of two coordinate triples is orthogonal to the first
/// factor. Each distribution step is small enough for the nonlinear solver;
/// the six resulting terms cancel pairwise.
proof fn lemma_cross_orthogonal_core_left(
    x1: int, y1: int, z1: int, x2: int, y2: int, z2: int,
)
    ensures
        (y1 * z2 - z1 * y2) * x1 + (z1 * x2 - x1 * z2) * y1 + (x1 * y2 - y1 * x2) * z1 == 0,
{
    assert((y1 * z2 - z1 * y2) * x1 == (x1 * y1) * z2 - (x1 * z1) * y2) by (nonlinear_arith);
    assert((z1 * x2 - x1 * z2) * y1 == (y1 * z1) * x2 - (x1 * y1) * z2) by (nonlinear_arith);
    assert((x1 * y2 - y1 * x2) * z1 == (x1 * z1) * y2 - (y1 * z1) * x2) by (nonlinear_arith);
}

/// Cross product of two coordinate triples is orthogonal to the second
/// factor, by the same term-by-term distribution.
proof fn lemma_cross_orthogonal_core_right(
    x1: int, y1: int, z1: int, x2: int, y2: int, z2: int,
)
    ensures
        (y1 * z2 - z1 * y2) * x2 + (z1 * x2 - x1 * z2) * y2 + (x1 * y2 - y1 * x2) * z2 == 0,
{
    assert((y1 * z2 - z1 * y2) * x2 == (y1 * x2) * z2 - (z1 * x2) * y2) by (nonlinear_arith);
    assert((z1 * x2 - x1 * z2) * y2 == (z1 * x2) * y2 - (x1 * y2) * z2) by (nonlinear_arith);
    assert((x1 * y2 - y1 * x2) * z2 == (x1 * y2) * z2 - (y1 * x2) * z2) by (nonlinear_arith);
}

/// Lagrange's identity for coordinate triples: the squared length of the
/// cross product is the product of the squared lengths minus the squared
/// dot product. The proof expands every square and product into a fixed
/// set of named monomials, one small nonlinear step at a time, and the
/// expansions cancel linearly.
proof fn lemma_lagrange_core(
    x1: int, y1: int, z1: int, x2: int, y2: int, z2: int,
)
    ensures
        (y1 * z2 - z1 * y2) * (y1 * z2 - z1 * y2) + (z1 * x2 - x1 * z2) * (z1 * x2 - x1 * z2)
            + (x1 * y2 - y1 * x2) * (x1 * y2 - y1 * x2)
            == (x1 * x1 + y1 * y1 + z1 * z1) * (x2 * x2 + y2 * y2 + z2 * z2)
                - (x1 * x2 + y1 * y2 + z1 * z2) * (x1 * x2 + y1 * y2 + z1 * z2),
{
    let p1: int = x1 * x1;
    let q1: int = y1 * y1;
    let r1: int = z1 * z1;
    let p2: int = x2 * x2;
    let q2: int = y2 * y2;
    let r2: int = z2 * z2;
    let a: int = x1 * x2;
    let b: int = y1 * y2;
    let c: int = z1 * z2;
    let g1: int = y1 * z2;
    let h1: int = z1 * y2;
    let g2: int = z1 * x2;
    let h2: int = x1 * z2;
    let g3: int = x1 * y2;
    let h3: int = y1 * x2;
    assert((g1 - h1) * (g1 - h1) == g1 * g1 - 2 * (g1 * h1) + h1 * h1) by (nonlinear_arith);
    assert((g2 - h2) * (g2 - h2) == g2 * g2 - 2 * (g2 * h2) + h2 * h2) by (nonlinear_arith);
    assert((g3 - h3) * (g3 - h3) == g3 * g3 - 2 * (g3 * h3) + h3 * h3) by (nonlinear_arith);
    assert((y1 * z2 - z1 * y2) * (y1 * z2 - z1 * y2) == (g1 - h1) * (g1 - h1))
        by (nonlinear_arith)
        requires g1 == y1 * z2, h1 == z1 * y2;
    assert((z1 * x2 - x1 * z2) * (z1 * x2 - x1 * z2) == (g2 - h2) * (g2 - h2))
        by (nonlinear_arith)
        requires g2 == z1 * x2, h2 == x1 * z2;
    assert((x1 * y2 - y1 * x2) * (x1 * y2 - y1 * x2) == (g3 - h3) * (g3 - h3))
        by (nonlinear_arith)
        requires g3 == x1 * y2, h3 == y1 * x2;
    assert(g1 * g1 == q1 * r2) by (nonlinear_arith)
        requires g1 == y1 * z2, q1 == y1 * y1, r2 == z2 * z2;
    assert(h1 * h1 == r1 * q2) by (nonlinear_arith)
        requires h1 == z1 * y2, r1 == z1 * z1, q2 == y2 * y2;
    assert(g1 * h1 == b * c) by (nonlinear_arith)
        requires g1 == y1 * z2, h1 == z1 * y2, b == y1 * y2, c == z1 * z2;
    assert(g2 * g2 == r1 * p2) by (nonlinear_arith)
        requires g2 == z1 * x2, r1 == z1 * z1, p2 == x2 * x2;
    assert(h2 * h2 == p1 * r2) by (nonlinear_arith)
        requires h2 == x1 * z2, p1 == x1 * x1, r2 == z2 * z2;
    assert(g2 * h2 == c * a) by (nonlinear_arith)
        requires g2 == z1 * x2, h2 == x1 * z2, c == z1 * z2, a == x1 * x2;
    assert(g3 * g3 == p1 * q2) by (nonlinear_arith)
        requires g3 == x1 * y2, p1 == x1 * x1, q2 == y2 * y2;
    assert(h3 * h3 == q1 * p2) by (nonlinear_arith)
        requires h3 == y1 * x2, q1 == y1 * y1, p2 == x2 * x2;
    assert(g3 * h3 == a * b) by (nonlinear_arith)
        requires g3 == x1 * y2, h3 == y1 * x2, a == x1 * x2, b == y1 * y2;
    assert((p1 + q1 + r1) * (p2 + q2 + r2)
        == p1 * p2 + p1 * q2 + p1 * r2 + q1 * p2 + q1 * q2 + q1 * r2 + r1 * p2 + r1 * q2 + r1 * r2)
        by (nonlinear_arith);
    assert((x1 * x1 + y1 * y1 + z1 * z1) * (x2 * x2 + y2 * y2 + z2 * z2)
        == (p1 + q1 + r1) * (p2 + q2 + r2))
        by (nonlinear_arith)
        requires
            p1 == x1 * x1, q1 == y1 * y1, r1 == z1 * z1, p2 == x2 * x2, q2 == y2 * y2, r2 == z2 * z2;
    assert((x1 * x2 + y1 * y2 + z1 * z2) * (x1 * x2 + y1 * y2 + z1 * z2)
        == a * a + b * b + c * c + 2 * (a * b) + 2 * (b * c) + 2 * (c * a))
        by (nonlinear_arith)
        requires
            a == x1 * x2, b == y1 * y2, c == z1 * z2;
    assert(a * a == p1 * p2) by (nonlinear_arith)
        requires a == x1 * x2, p1 == x1 * x1, p2 == x2 * x2;
    assert(b * b == q1 * q2) by (nonlinear_arith)
        requires b == y1 * y2, q1 == y1 * y1, q2 == y2 * y2;
    assert(c * c == r1 * r2) by (nonlinear_arith)
        requires c == z1 * z2, r1 == z1 * z1, r2 == z2 * z2;
}

/// The cross product `a x b` is orthogonal to `a` and to `b`.
pub proof fn lemma_cross_orthogonal(a: Vec3, b: Vec3)
    ensures
        spec_cross_x(a, b) * a.x + spec_cross_y(a, b) * a.y + spec_cross_z(a, b) * a.z == 0,
        spec_cross_x(a, b) * b.x + spec_cross_y(a, b) * b.y + spec_cross_z(a, b) * b.z == 0,
{
    lemma_cross_orthogonal_core_left(a.x as int, a.y as int, a.z as int, b.x as int, b.y as int, b.z as int);
    lemma_cross_orthogonal_core_right(a.x as int, a.y as int, a.z as int, b.x as int, b.y as int, b.z as int);
}

/// Lagrange's identity for `Vec3`: `|a x b|^2 == |a|^2 * |b|^2 - (a . b)^2`.
pub proof fn lemma_lagrange(a: Vec3, b: Vec3)
    ensures
        spec_cross_norm_sq(a, b) == spec_norm_sq(a) * spec_norm_sq(b) - spec_dot(a, b) * spec_dot(a, b),
{
    lemma_lagrange_core(a.x as int, a.y as int, a.z as int, b.x as int, b.y as int, b.z as int);
}

/// Computes the cross product `a x b`.
///
/// The ghost bounds let each call site carry its own overflow budget.
pub(crate) fn cross(a: Vec3, b: Vec3, Ghost(ma): Ghost<int>, Ghost(mb): Ghost<int>) -> (r: Vec3)
    requires
        0 <= ma,
        0 <= mb,
        bounded(a, ma),
        bounded(b, mb),
        2 * (ma * mb) <= i64::MAX,
    ensures
        r.x == spec_cross_x(a, b),
        r.y == spec_cross_y(a, b),
        r.z == spec_cross_z(a, b),
        bounded(r, 2 * (ma * mb)),
{
    proof {
        lemma_mul_bound(a.y as int, b.z as int, ma, mb);
        lemma_mul_bound(a.z as int, b.y as int, ma, mb);
        lemma_mul_bound(a.z as int, b.x as int, ma, mb);
        lemma_mul_bound(a.x as int, b.z as int, ma, mb);
        lemma_mul_bound(a.x as int, b.y as int, ma, mb);
        lemma_mul_bound(a.y as int, b.x as int, ma, mb);
    }
    Vec3 {
        x: a.y * b.z - a.z * b.y,
        y: a.z * b.x - a.x * b.z,
        z: a.x * b.y - a.y * b.x,
    }
}

/// Computes the dot product `a . b`.
///
/// The ghost bounds let each call site carry its own overflow budget.
pub(crate) fn dot(a: Vec3, b: Vec3, Ghost(ma): Ghost<int>, Ghost(mb): Ghost<int>) -> (r: i64)
    requires
        0 <= ma,
        0 <= mb,
        bounded(a, ma),
        bounded(b, mb),
        3 * (ma * mb) <= i64::MAX,
    ensures
        r == spec_dot(a, b),
        -(3 * (ma * mb)) <= r <= 3 * (ma * mb),
{
    proof {
        lemma_mul_bound(a.x as int, b.x as int, ma, mb);
        lemma_mul_bound(a.y as int, b.y as int, ma, mb);
        lemma_mul_bound(a.z as int, b.z as int, ma, mb);
    }
    a.x * b.x + a.y * b.y + a.z * b.z
}

} // verus!
