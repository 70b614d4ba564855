//! The perspective projection matrix, held as exact rationals.

use vstd::prelude::*;

verus! {

use crate::vec3::{lemma_mul_bound, lemma_mul_pos};

/// Largest numerator or denominator magnitude the projection accepts;
/// keeps every product of two parts inside `i64`.
pub const MAX_PROJ_PARAM: i64 = 1_000_000_000;

/// An exact rational number with a positive denominator.
#[derive(Clone, Copy, PartialEq, Eq, Structural, Debug)]
pub struct Rat {
    pub num: i64,
    pub den: i64,
}

/// `q` has a positive denominator.
pub open spec fn rat_wf(q: Rat) -> bool {
    0 < q.den
}

/// `q` equals the fraction `n / d`, by cross-multiplication; meaningful
/// whenever `d != 0`.
pub open spec fn rat_is(q: Rat, n: int, d: int) -> bool {
    q.num * d == n * q.den
}

/// `a < b` as rationals, for positive denominators.
pub open spec fn rat_lt(a: Rat, b: Rat) -> bool {
    a.num * b.den < b.num * a.den
}

/// Both parts of `q` are bounded by `MAX_PROJ_PARAM`, and `q` is well
/// formed.
pub open spec fn rat_in_range(q: Rat) -> bool {
    &&& -MAX_PROJ_PARAM <= q.num <= MAX_PROJ_PARAM
    &&& 0 < q.den <= MAX_PROJ_PARAM
}

/// One row of the projection matrix, in the memory order a renderer
/// uploads.
#[derive(Clone, Copy, PartialEq, Eq, Structural, Debug)]
pub struct PerspRow {
    pub x: Rat,
    pub y: Rat,
    pub z: Rat,
    pub w: Rat,
}

/// A perspective projection matrix with exact rational entries.
#[derive(Clone, Copy, PartialEq, Eq, Structural, Debug)]
pub struct PerspectiveMatrix {
    pub r0: PerspRow,
    pub r1: PerspRow,
    pub r2: PerspRow,
    pub r3: PerspRow,
}

/// Why a perspective projection cannot be formed from the given
/// parameters.
#[derive(Clone, Copy, PartialEq, Eq, Structural, Debug)]
pub enum InvalidProjectionParameters {
    /// The tangent of half the vertical field of view is not positive,
    /// so the field of view lies outside `(0, pi)`.
    NonPositiveFieldOfView,
    /// The near clip distance is not positive.
    NonPositiveNearPlane,
    /// The far clip distance does not lie beyond the near clip distance.
    FarNotBeyondNear,
}

/// `m` is exactly the right-handed perspective matrix for the given
/// parameters: with `f = 1 / tan_half_fov`, the diagonal carries
/// `f * aspect` and `f`, the third row carries
/// `(z_far + z_near) / (z_far - z_near)` and the perspective-divide `1`,
/// the fourth row carries `-(2 * z_far * z_near) / (z_far - z_near)`, and
/// every other entry is zero.
pub open spec fn is_perspective_matrix_for(
    m: PerspectiveMatrix,
    aspect: Rat,
    tan_half_fov: Rat,
    z_near: Rat,
    z_far: Rat,
) -> bool {
    &&& rat_wf(m.r0.x)
    &&& rat_is(m.r0.x, aspect.num * tan_half_fov.den, aspect.den * tan_half_fov.num)
    &&& m.r0.y == (Rat { num: 0, den: 1 })
    &&& m.r0.z == (Rat { num: 0, den: 1 })
    &&& m.r0.w == (Rat { num: 0, den: 1 })
    &&& m.r1.x == (Rat { num: 0, den: 1 })
    &&& rat_wf(m.r1.y)
    &&& rat_is(m.r1.y, tan_half_fov.den as int, tan_half_fov.num as int)
    &&& m.r1.z == (Rat { num: 0, den: 1 })
    &&& m.r1.w == (Rat { num: 0, den: 1 })
    &&& m.r2.x == (Rat { num: 0, den: 1 })
    &&& m.r2.y == (Rat { num: 0, den: 1 })
    &&& rat_wf(m.r2.z)
    &&& rat_is(
        m.r2.z,
        z_far.num * z_near.den + z_near.num * z_far.den,
        z_far.num * z_near.den - z_near.num * z_far.den,
    )
    &&& m.r2.w == (Rat { num: 1, den: 1 })
    &&& m.r3.x == (Rat { num: 0, den: 1 })
    &&& m.r3.y == (Rat { num: 0, den: 1 })
    &&& rat_wf(m.r3.z)
    &&& rat_is(
        m.r3.z,
        -2 * (z_far.num * z_near.num),
        z_far.num * z_near.den - z_near.num * z_far.den,
    )
    &&& m.r3.w == (Rat { num: 0, den: 1 })
}

/// Builds the right-handed perspective projection matrix from the aspect
/// ratio, the tangent of half the vertical field of view, and the near
/// and far clip distances, all as exact rationals.
///
/// Out-of-range optics are rejected: the half-angle tangent must be
/// positive (a vertical field of view strictly between 0 and pi), the
/// near plane must sit at a positive distance, and the far plane must lie
/// beyond the near plane.
pub fn compute_perspective_matrix(
    aspect_ratio: Rat,
    tan_half_fov: Rat,
    z_near: Rat,
    z_far: Rat,
) -> (r: Result<PerspectiveMatrix, InvalidProjectionParameters>)
    requires
        rat_in_range(aspect_ratio),
        rat_in_range(tan_half_fov),
        rat_in_range(z_near),
        rat_in_range(z_far),
    ensures
        (r matches Err(InvalidProjectionParameters::NonPositiveFieldOfView)) <==> tan_half_fov.num
            <= 0,
        (r matches Err(InvalidProjectionParameters::NonPositiveNearPlane)) <==> (tan_half_fov.num
            > 0 && z_near.num <= 0),
        (r matches Err(InvalidProjectionParameters::FarNotBeyondNear)) <==> (tan_half_fov.num > 0
            && z_near.num > 0 && !rat_lt(z_near, z_far)),
        r is Ok <==> (tan_half_fov.num > 0 && z_near.num > 0 && rat_lt(z_near, z_far)),
        r matches Ok(m) ==> is_perspective_matrix_for(m, aspect_ratio, tan_half_fov, z_near,
            z_far),
{
    if tan_half_fov.num <= 0 {
        return Err(InvalidProjectionParameters::NonPositiveFieldOfView);
    }
    if z_near.num <= 0 {
        return Err(InvalidProjectionParameters::NonPositiveNearPlane);
    }
    proof {
        lemma_mul_bound(
            z_far.num as int,
            z_near.den as int,
            MAX_PROJ_PARAM as int,
            MAX_PROJ_PARAM as int,
        );
        lemma_mul_bound(
            z_near.num as int,
            z_far.den as int,
            MAX_PROJ_PARAM as int,
            MAX_PROJ_PARAM as int,
        );
    }
    let far_scaled: i64 = z_far.num * z_near.den;
    let near_scaled: i64 = z_near.num * z_far.den;
    if far_scaled <= near_scaled {
        return Err(InvalidProjectionParameters::FarNotBeyondNear);
    }
    proof {
        lemma_mul_bound(
            aspect_ratio.num as int,
            tan_half_fov.den as int,
            MAX_PROJ_PARAM as int,
            MAX_PROJ_PARAM as int,
        );
        lemma_mul_bound(
            aspect_ratio.den as int,
            tan_half_fov.num as int,
            MAX_PROJ_PARAM as int,
            MAX_PROJ_PARAM as int,
        );
        lemma_mul_pos(aspect_ratio.den as int, tan_half_fov.num as int);
        lemma_mul_bound(
            z_far.num as int,
            z_near.num as int,
            MAX_PROJ_PARAM as int,
            MAX_PROJ_PARAM as int,
        );
    }
    let depth_num: i64 = far_scaled + near_scaled;
    let depth_den: i64 = far_scaled - near_scaled;
    let far_near: i64 = z_far.num * z_near.num;
    let w_num: i64 = -(far_near + far_near);
    let m = PerspectiveMatrix {
        r0: PerspRow {
            x: Rat {
                num: aspect_ratio.num * tan_half_fov.den,
                den: aspect_ratio.den * tan_half_fov.num,
            },
            y: Rat { num: 0, den: 1 },
            z: Rat { num: 0, den: 1 },
            w: Rat { num: 0, den: 1 },
        },
        r1: PerspRow {
            x: Rat { num: 0, den: 1 },
            y: Rat { num: tan_half_fov.den, den: tan_half_fov.num },
            z: Rat { num: 0, den: 1 },
            w: Rat { num: 0, den: 1 },
        },
        r2: PerspRow {
            x: Rat { num: 0, den: 1 },
            y: Rat { num: 0, den: 1 },
            z: Rat { num: depth_num, den: depth_den },
            w: Rat { num: 1, den: 1 },
        },
        r3: PerspRow {
            x: Rat { num: 0, den: 1 },
            y: Rat { num: 0, den: 1 },
            z: Rat { num: w_num, den: depth_den },
            w: Rat { num: 0, den: 1 },
        },
    };
    Ok(m)
}

} // verus!
