//! Fixed-point quaternions and exact vector rotation.
//!
//! A quaternion stores its four components in thousandths, so the unit
//! quaternion has squared norm `SCALE * SCALE`. Rotation divides by the
//! squared norm, which makes the formula exact for any non-zero
//! quaternion without a square root; a zero quaternion rotates nothing.

use vstd::prelude::*;

use crate::math::FX_MAX;
use crate::math::SCALE;
use crate::math::cl;
use crate::math::fx_wf;
use crate::math::lemma_mul_bound;
use crate::math::tdiv;
use crate::vec3::Vec3;
use crate::vec3::v3_wf;

verus! {

/// Largest magnitude a quaternion component may have (32 in world
/// units, far beyond any normalised rotation).
pub const Q_MAX: i64 = 32_000;

/// A rotation (or any quaternion) in fixed-point components.
#[derive(Clone, Copy, PartialEq, Eq, Structural, Debug)]
pub struct Quat {
    pub w: i64,
    pub x: i64,
    pub y: i64,
    pub z: i64,
}

/// All four components lie within the quaternion bound.
pub open spec fn q_wf(q: Quat) -> bool {
    &&& -Q_MAX <= q.w <= Q_MAX
    &&& -Q_MAX <= q.x <= Q_MAX
    &&& -Q_MAX <= q.y <= Q_MAX
    &&& -Q_MAX <= q.z <= Q_MAX
}

/// Squared norm, exact.
pub open spec fn q_norm2_s(q: Quat) -> int {
    q.w * q.w + q.x * q.x + q.y * q.y + q.z * q.z
}

/// Exact rotation of `v` by `q`: the classical
/// `(s^2 - |u|^2) v + 2 (u . v) u + 2 s (u x v)` numerator divided by
/// the squared norm, truncated toward zero and clamped per component.
/// A quaternion of squared norm zero leaves the vector unchanged.
pub open spec fn q_rotate_s(q: Quat, v: Vec3) -> Vec3 {
    let n2 = q_norm2_s(q);
    if n2 <= 0 {
        v
    } else {
        let s = q.w as int;
        let k = s * s - (q.x * q.x + q.y * q.y + q.z * q.z);
        let d = q.x * v.x + q.y * v.y + q.z * v.z;
        let cx = q.y * v.z - q.z * v.y;
        let cy = q.z * v.x - q.x * v.z;
        let cz = q.x * v.y - q.y * v.x;
        let nx = k * v.x + 2 * (d * q.x) + 2 * (s * cx);
        let ny = k * v.y + 2 * (d * q.y) + 2 * (s * cy);
        let nz = k * v.z + 2 * (d * q.z) + 2 * (s * cz);
        Vec3 { x: cl(tdiv(nx, n2)) as i64, y: cl(tdiv(ny, n2)) as i64, z: cl(tdiv(nz, n2)) as i64 }
    }
}

impl Quat {
    /// The identity rotation, as a spec value.
    pub open spec fn identity_s() -> Quat {
        Quat { w: SCALE, x: 0, y: 0, z: 0 }
    }

    /// Build a quaternion, clamping each component into the quaternion
    /// bound.
    pub fn new(w: i64, x: i64, y: i64, z: i64) -> (r: Quat)
        ensures
            r.w == qcl(w as int),
            r.x == qcl(x as int),
            r.y == qcl(y as int),
            r.z == qcl(z as int),
            q_wf(r),
    {
        Quat { w: q_clamp(w), x: q_clamp(x), y: q_clamp(y), z: q_clamp(z) }
    }

    /// The identity rotation.
    pub fn identity() -> (r: Quat)
        ensures
            r == Quat::identity_s(),
            q_wf(r),
    {
        Quat { w: SCALE, x: 0, y: 0, z: 0 }
    }

    /// Exact squared norm; it fits easily because the components are
    /// bounded.
    pub fn norm2(&self) -> (r: i64)
        requires
            q_wf(*self),
        ensures
            r == q_norm2_s(*self),
            0 <= r <= 4 * (Q_MAX as int) * (Q_MAX as int),
    {
        proof {
            lemma_mul_bound(self.w as int, self.w as int, Q_MAX as int, Q_MAX as int);
            lemma_mul_bound(self.x as int, self.x as int, Q_MAX as int, Q_MAX as int);
            lemma_mul_bound(self.y as int, self.y as int, Q_MAX as int, Q_MAX as int);
            lemma_mul_bound(self.z as int, self.z as int, Q_MAX as int, Q_MAX as int);
            lemma_sq_nonneg(self.w as int);
            lemma_sq_nonneg(self.x as int);
            lemma_sq_nonneg(self.y as int);
            lemma_sq_nonneg(self.z as int);
        }
        self.w * self.w + self.x * self.x + self.y * self.y + self.z * self.z
    }

    /// Rotate a vector by this quaternion, exactly as `q_rotate_s`
    /// describes.
    pub fn rotate_vector(&self, v: &Vec3) -> (r: Vec3)
        requires
            q_wf(*self),
            v3_wf(*v),
        ensures
            r == q_rotate_s(*self, *v),
            v3_wf(r),
    {
        let n2 = self.norm2();
        if n2 <= 0 {
            return *v;
        }
        proof {
            lemma_rotate_numerator_bounds(*self, *v);
        }
        let s = self.w as i128;
        let qx = self.x as i128;
        let qy = self.y as i128;
        let qz = self.z as i128;
        let vx = v.x as i128;
        let vy = v.y as i128;
        let vz = v.z as i128;
        let k: i128 = s * s - (qx * qx + qy * qy + qz * qz);
        let d: i128 = qx * vx + qy * vy + qz * vz;
        let cx: i128 = qy * vz - qz * vy;
        let cy: i128 = qz * vx - qx * vz;
        let cz: i128 = qx * vy - qy * vx;
        let nx: i128 = k * vx + 2 * (d * qx) + 2 * (s * cx);
        let ny: i128 = k * vy + 2 * (d * qy) + 2 * (s * cy);
        let nz: i128 = k * vz + 2 * (d * qz) + 2 * (s * cz);
        let rx = crate::math::fx_clamp128(crate::math::div_trunc128(nx, n2 as i128));
        let ry = crate::math::fx_clamp128(crate::math::div_trunc128(ny, n2 as i128));
        let rz = crate::math::fx_clamp128(crate::math::div_trunc128(nz, n2 as i128));
        Vec3 { x: rx, y: ry, z: rz }
    }
}

/// Clamp into the quaternion bound, as a spec value.
pub open spec fn qcl(x: int) -> int {
    if x > Q_MAX as int {
        Q_MAX as int
    } else if x < -(Q_MAX as int) {
        -(Q_MAX as int)
    } else {
        x
    }
}

/// Clamp an `i64` into the quaternion bound.
pub fn q_clamp(x: i64) -> (r: i64)
    ensures
        r == qcl(x as int),
        -Q_MAX <= r <= Q_MAX,
{
    if x > Q_MAX {
        Q_MAX
    } else if x < -Q_MAX {
        -Q_MAX
    } else {
        x
    }
}

/// A square is never negative.
pub proof fn lemma_sq_nonneg(a: int)
    ensures
        a * a >= 0,
{
    assert(a * a >= 0) by (nonlinear_arith);
}

/// All intermediate quantities of the rotation formula stay far
/// inside the 128-bit range for bounded inputs.
proof fn lemma_rotate_numerator_bounds(q: Quat, v: Vec3)
    requires
        q_wf(q),
        v3_wf(v),
    ensures
        ({
            let s = q.w as int;
            let k = s * s - (q.x * q.x + q.y * q.y + q.z * q.z);
            let d = q.x * v.x + q.y * v.y + q.z * v.z;
            let cx = q.y * v.z - q.z * v.y;
            let cy = q.z * v.x - q.x * v.z;
            let cz = q.x * v.y - q.y * v.x;
            &&& 0 <= s * s <= 1_100_000_000
            &&& 0 <= q.x * q.x <= 1_100_000_000
            &&& 0 <= q.y * q.y <= 1_100_000_000
            &&& 0 <= q.z * q.z <= 1_100_000_000
            &&& -4_400_000_000 <= k <= 4_400_000_000
            &&& -100_000_000_000_000_000 <= d <= 100_000_000_000_000_000
            &&& -100_000_000_000_000_000 <= cx <= 100_000_000_000_000_000
            &&& -100_000_000_000_000_000 <= cy <= 100_000_000_000_000_000
            &&& -100_000_000_000_000_000 <= cz <= 100_000_000_000_000_000
            &&& -32_000_000_000_000_000 <= q.x * v.x <= 32_000_000_000_000_000
            &&& -32_000_000_000_000_000 <= q.y * v.y <= 32_000_000_000_000_000
            &&& -32_000_000_000_000_000 <= q.z * v.z <= 32_000_000_000_000_000
            &&& -32_000_000_000_000_000 <= q.y * v.z <= 32_000_000_000_000_000
            &&& -32_000_000_000_000_000 <= q.z * v.y <= 32_000_000_000_000_000
            &&& -32_000_000_000_000_000 <= q.z * v.x <= 32_000_000_000_000_000
            &&& -32_000_000_000_000_000 <= q.x * v.z <= 32_000_000_000_000_000
            &&& -32_000_000_000_000_000 <= q.x * v.y <= 32_000_000_000_000_000
            &&& -32_000_000_000_000_000 <= q.y * v.x <= 32_000_000_000_000_000
            &&& -4_400_000_000_000_000_000_000 <= k * v.x <= 4_400_000_000_000_000_000_000
            &&& -4_400_000_000_000_000_000_000 <= k * v.y <= 4_400_000_000_000_000_000_000
            &&& -4_400_000_000_000_000_000_000 <= k * v.z <= 4_400_000_000_000_000_000_000
            &&& -3_200_000_000_000_000_000_000 <= d * q.x <= 3_200_000_000_000_000_000_000
            &&& -3_200_000_000_000_000_000_000 <= d * q.y <= 3_200_000_000_000_000_000_000
            &&& -3_200_000_000_000_000_000_000 <= d * q.z <= 3_200_000_000_000_000_000_000
            &&& -3_200_000_000_000_000_000_000 <= s * cx <= 3_200_000_000_000_000_000_000
            &&& -3_200_000_000_000_000_000_000 <= s * cy <= 3_200_000_000_000_000_000_000
            &&& -3_200_000_000_000_000_000_000 <= s * cz <= 3_200_000_000_000_000_000_000
            &&& ({
                let nx = k * v.x + 2 * (d * q.x) + 2 * (s * cx);
                let ny = k * v.y + 2 * (d * q.y) + 2 * (s * cy);
                let nz = k * v.z + 2 * (d * q.z) + 2 * (s * cz);
                let nb = 100_000_000_000_000_000_000_000int;
                &&& -nb <= nx <= nb
                &&& -nb <= ny <= nb
                &&& -nb <= nz <= nb
            })
        }),
{
    let qm = Q_MAX as int;
    let fm = FX_MAX as int;
    lemma_sq_nonneg(q.w as int);
    lemma_sq_nonneg(q.x as int);
    lemma_sq_nonneg(q.y as int);
    lemma_sq_nonneg(q.z as int);
    lemma_mul_bound(q.w as int, q.w as int, qm, qm);
    lemma_mul_bound(q.x as int, q.x as int, qm, qm);
    lemma_mul_bound(q.y as int, q.y as int, qm, qm);
    lemma_mul_bound(q.z as int, q.z as int, qm, qm);
    lemma_mul_bound(q.x as int, v.x as int, qm, fm);
    lemma_mul_bound(q.y as int, v.y as int, qm, fm);
    lemma_mul_bound(q.z as int, v.z as int, qm, fm);
    lemma_mul_bound(q.y as int, v.z as int, qm, fm);
    lemma_mul_bound(q.z as int, v.y as int, qm, fm);
    lemma_mul_bound(q.z as int, v.x as int, qm, fm);
    lemma_mul_bound(q.x as int, v.z as int, qm, fm);
    lemma_mul_bound(q.x as int, v.y as int, qm, fm);
    lemma_mul_bound(q.y as int, v.x as int, qm, fm);
    let s = q.w as int;
    let k = s * s - (q.x * q.x + q.y * q.y + q.z * q.z);
    let d = q.x * v.x + q.y * v.y + q.z * v.z;
    let cx = q.y * v.z - q.z * v.y;
    let cy = q.z * v.x - q.x * v.z;
    let cz = q.x * v.y - q.y * v.x;
    let kb = 4_400_000_000int;
    let db = 100_000_000_000_000_000int;
    lemma_mul_bound(k, v.x as int, kb, fm);
    lemma_mul_bound(k, v.y as int, kb, fm);
    lemma_mul_bound(k, v.z as int, kb, fm);
    lemma_mul_bound(d, q.x as int, db, qm);
    lemma_mul_bound(d, q.y as int, db, qm);
    lemma_mul_bound(d, q.z as int, db, qm);
    lemma_mul_bound(s, cx, qm, db);
    lemma_mul_bound(s, cy, qm, db);
    lemma_mul_bound(s, cz, qm, db);
}

} // verus!
