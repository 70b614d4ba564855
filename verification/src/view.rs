//! The right-handed look-at view matrix, held exactly.

use vstd::prelude::*;

verus! {

use crate::vec3::{
    Vec3, cross, cross_is_zero, dot, in_coord_range, is_zero, lemma_cross_orthogonal,
    lemma_lagrange, spec_cross_x, spec_cross_y, spec_cross_z, spec_dot, spec_norm_sq,
};
use vstd::arithmetic::mul::{lemma_mul_by_zero_is_zero, lemma_mul_is_commutative};

/// One exactly-held entry of a view matrix.
///
/// The entry's real value is `num`, divided by the length of the look
/// direction when `over_dir_len` is set, and by the length of the side
/// vector (the cross product of the up reference and the look direction)
/// when `over_side_len` is set. Those two lengths are the square roots of
/// the radicands stored alongside the matrix, so a renderer can evaluate
/// every entry with two square roots and a few divisions.
#[derive(Clone, Copy, PartialEq, Eq, Structural, Debug)]
pub struct ViewEntry {
    pub num: i64,
    pub over_dir_len: bool,
    pub over_side_len: bool,
}

/// One row of the view matrix, in the memory order a renderer uploads.
#[derive(Clone, Copy, PartialEq, Eq, Structural, Debug)]
pub struct ViewRow {
    pub x: ViewEntry,
    pub y: ViewEntry,
    pub z: ViewEntry,
    pub w: ViewEntry,
}

/// A look-at view matrix with exact entries.
///
/// The first three columns of the upper 3x3 block hold the side, true-up
/// and forward basis vectors; the fourth row holds the translation. The
/// two radicands `dir_norm_sq` (squared length of the look direction) and
/// `side_norm_sq` (squared length of the side vector) complete the closed
/// form of every entry.
#[derive(Clone, Copy, PartialEq, Eq, Structural, Debug)]
pub struct ViewMatrix {
    pub r0: ViewRow,
    pub r1: ViewRow,
    pub r2: ViewRow,
    pub r3: ViewRow,
    pub dir_norm_sq: i64,
    pub side_norm_sq: i64,
}

/// Why a camera basis cannot be formed from the given vectors.
#[derive(Clone, Copy, PartialEq, Eq, Structural, Debug)]
pub enum InvalidCameraBasis {
    /// The look direction is the zero vector, so it cannot be normalized.
    ZeroLookDirection,
    /// The up reference is parallel to the look direction, so their cross
    /// product cannot span a basis.
    UpParallelToLook,
}

/// `e` holds numerator `n` with exactly the radical divisors `a` (length
/// of the look direction) and `b` (length of the side vector).
pub open spec fn entry_is(e: ViewEntry, n: int, a: bool, b: bool) -> bool {
    e.num == n && e.over_dir_len == a && e.over_side_len == b
}

/// `m` is exactly the look-at view matrix for the given camera.
///
/// With `f` the normalized look direction, the construction takes
/// `s = up x f` (kept unnormalized in the first column, exactly as the
/// classic layout stores it), `s_norm = s / |s|`, `u = f x s_norm`, and a
/// fourth row `(-eye . s_norm, -eye . u, -eye . f, 1)`. In exact form the
/// side column is `cross(up, dir) / |dir|`, the true-up column is
/// `cross(dir, cross(up, dir)) / (|dir| * |side|)`, and the forward column
/// is `dir / |dir|`, which is what the entry clauses below spell out.
pub open spec fn is_view_matrix_for(m: ViewMatrix, eye: Vec3, dir: Vec3, up: Vec3) -> bool {
    let sv = Vec3 { x: m.r0.x.num, y: m.r1.x.num, z: m.r2.x.num };
    let uv = Vec3 { x: m.r0.y.num, y: m.r1.y.num, z: m.r2.y.num };
    &&& entry_is(m.r0.x, spec_cross_x(up, dir), true, false)
    &&& entry_is(m.r1.x, spec_cross_y(up, dir), true, false)
    &&& entry_is(m.r2.x, spec_cross_z(up, dir), true, false)
    &&& entry_is(m.r0.y, spec_cross_x(dir, sv), true, true)
    &&& entry_is(m.r1.y, spec_cross_y(dir, sv), true, true)
    &&& entry_is(m.r2.y, spec_cross_z(dir, sv), true, true)
    &&& entry_is(m.r0.z, dir.x as int, true, false)
    &&& entry_is(m.r1.z, dir.y as int, true, false)
    &&& entry_is(m.r2.z, dir.z as int, true, false)
    &&& entry_is(m.r0.w, 0, false, false)
    &&& entry_is(m.r1.w, 0, false, false)
    &&& entry_is(m.r2.w, 0, false, false)
    &&& entry_is(m.r3.x, -spec_dot(eye, sv), false, true)
    &&& entry_is(m.r3.y, -spec_dot(eye, uv), true, true)
    &&& entry_is(m.r3.z, -spec_dot(eye, dir), true, false)
    &&& entry_is(m.r3.w, 1, false, false)
    &&& m.dir_norm_sq == spec_norm_sq(dir)
    &&& m.side_norm_sq == spec_norm_sq(sv)
}

/// Builds the right-handed look-at view matrix for a camera at
/// `eye_position` looking along `look_direction` with `up_reference`
/// steadying its roll.
///
/// Degenerate inputs are rejected rather than silently producing a
/// meaningless matrix: a zero look direction cannot be normalized, and an
/// up reference parallel to the look direction leaves no side vector.
pub fn compute_view_matrix(eye_position: Vec3, look_direction: Vec3, up_reference: Vec3) -> (r:
    Result<ViewMatrix, InvalidCameraBasis>)
    requires
        in_coord_range(eye_position),
        in_coord_range(look_direction),
        in_coord_range(up_reference),
    ensures
        (r matches Err(InvalidCameraBasis::ZeroLookDirection)) <==> is_zero(look_direction),
        (r matches Err(InvalidCameraBasis::UpParallelToLook)) <==> (!is_zero(look_direction)
            && cross_is_zero(up_reference, look_direction)),
        r is Ok <==> (!is_zero(look_direction) && !cross_is_zero(up_reference, look_direction)),
        r matches Ok(m) ==> is_view_matrix_for(m, eye_position, look_direction, up_reference),
{
    if look_direction.x == 0 && look_direction.y == 0 && look_direction.z == 0 {
        return Err(InvalidCameraBasis::ZeroLookDirection);
    }
    let side: Vec3 = cross(up_reference, look_direction, Ghost(10_000 as int), Ghost(10_000 as int));
    if side.x == 0 && side.y == 0 && side.z == 0 {
        return Err(InvalidCameraBasis::UpParallelToLook);
    }
    let up_true: Vec3 = cross(look_direction, side, Ghost(10_000 as int), Ghost(200_000_000 as int));
    let dir_norm_sq: i64 = dot(look_direction, look_direction, Ghost(10_000 as int), Ghost(10_000 as int));
    let side_norm_sq: i64 = dot(side, side, Ghost(200_000_000 as int), Ghost(200_000_000 as int));
    let trans_side: i64 = dot(eye_position, side, Ghost(10_000 as int), Ghost(200_000_000 as int));
    let trans_up: i64 = dot(eye_position, up_true, Ghost(10_000 as int), Ghost(4_000_000_000_000 as int));
    let trans_fwd: i64 = dot(eye_position, look_direction, Ghost(10_000 as int), Ghost(10_000 as int));
    let m = ViewMatrix {
        r0: ViewRow {
            x: ViewEntry { num: side.x, over_dir_len: true, over_side_len: false },
            y: ViewEntry { num: up_true.x, over_dir_len: true, over_side_len: true },
            z: ViewEntry { num: look_direction.x, over_dir_len: true, over_side_len: false },
            w: ViewEntry { num: 0, over_dir_len: false, over_side_len: false },
        },
        r1: ViewRow {
            x: ViewEntry { num: side.y, over_dir_len: true, over_side_len: false },
            y: ViewEntry { num: up_true.y, over_dir_len: true, over_side_len: true },
            z: ViewEntry { num: look_direction.y, over_dir_len: true, over_side_len: false },
            w: ViewEntry { num: 0, over_dir_len: false, over_side_len: false },
        },
        r2: ViewRow {
            x: ViewEntry { num: side.z, over_dir_len: true, over_side_len: false },
            y: ViewEntry { num: up_true.z, over_dir_len: true, over_side_len: true },
            z: ViewEntry { num: look_direction.z, over_dir_len: true, over_side_len: false },
            w: ViewEntry { num: 0, over_dir_len: false, over_side_len: false },
        },
        r3: ViewRow {
            x: ViewEntry { num: -trans_side, over_dir_len: false, over_side_len: true },
            y: ViewEntry { num: -trans_up, over_dir_len: true, over_side_len: true },
            z: ViewEntry { num: -trans_fwd, over_dir_len: true, over_side_len: false },
            w: ViewEntry { num: 1, over_dir_len: false, over_side_len: false },
        },
        dir_norm_sq,
        side_norm_sq,
    };
    Ok(m)
}

/// The camera basis packed into a view matrix is orthogonal, and the two
/// normalized columns have unit length.
///
/// Each statement is exact. The three column dot products vanish already
/// on the integer numerators, because the radical divisors agree within a
/// column. The forward and true-up columns are unit vectors: their squared
/// numerators sum to exactly the radicand their divisors square to. The
/// side column is stored unnormalized; its squared numerators sum to the
/// side radicand, so its length is `|side| / |dir|`.
pub proof fn lemma_view_basis_orthonormal(m: ViewMatrix, eye: Vec3, dir: Vec3, up: Vec3)
    requires
        is_view_matrix_for(m, eye, dir, up),
    ensures
        m.r0.x.num * m.r0.y.num + m.r1.x.num * m.r1.y.num + m.r2.x.num * m.r2.y.num == 0,
        m.r0.x.num * m.r0.z.num + m.r1.x.num * m.r1.z.num + m.r2.x.num * m.r2.z.num == 0,
        m.r0.y.num * m.r0.z.num + m.r1.y.num * m.r1.z.num + m.r2.y.num * m.r2.z.num == 0,
        m.r0.z.num * m.r0.z.num + m.r1.z.num * m.r1.z.num + m.r2.z.num * m.r2.z.num
            == m.dir_norm_sq,
        m.r0.x.num * m.r0.x.num + m.r1.x.num * m.r1.x.num + m.r2.x.num * m.r2.x.num
            == m.side_norm_sq,
        m.r0.y.num * m.r0.y.num + m.r1.y.num * m.r1.y.num + m.r2.y.num * m.r2.y.num
            == m.dir_norm_sq * m.side_norm_sq,
{
    let sv = Vec3 { x: m.r0.x.num, y: m.r1.x.num, z: m.r2.x.num };
    let uv = Vec3 { x: m.r0.y.num, y: m.r1.y.num, z: m.r2.y.num };
    lemma_cross_orthogonal(up, dir);
    lemma_cross_orthogonal(dir, sv);
    lemma_lagrange(dir, sv);
    lemma_mul_is_commutative(m.r0.x.num as int, m.r0.y.num as int);
    lemma_mul_is_commutative(m.r1.x.num as int, m.r1.y.num as int);
    lemma_mul_is_commutative(m.r2.x.num as int, m.r2.y.num as int);
    lemma_mul_is_commutative(dir.x as int, sv.x as int);
    lemma_mul_is_commutative(dir.y as int, sv.y as int);
    lemma_mul_is_commutative(dir.z as int, sv.z as int);
    assert(spec_dot(dir, sv) == 0);
    lemma_mul_by_zero_is_zero(spec_dot(dir, sv));
    assert(spec_dot(dir, sv) * spec_dot(dir, sv) == 0);
    assert(spec_norm_sq(dir) * spec_norm_sq(sv) == m.dir_norm_sq * m.side_norm_sq);
}

} // verus!
