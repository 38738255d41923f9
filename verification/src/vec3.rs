//! Three-component fixed-point vectors.

use vstd::prelude::*;

use crate::math::FX_MAX;
use crate::math::cl;
use crate::math::fx_add;
use crate::math::fx_add_s;
use crate::math::fx_mul;
use crate::math::fx_mul_s;
use crate::math::fx_sub;
use crate::math::fx_wf;

verus! {

/// A point or direction in world space, in fixed-point scalars.
#[derive(Clone, Copy, PartialEq, Eq, Structural, Debug)]
pub struct Vec3 {
    pub x: i64,
    pub y: i64,
    pub z: i64,
}

/// All three components lie in the clamping range.
pub open spec fn v3_wf(v: Vec3) -> bool {
    fx_wf(v.x as int) && fx_wf(v.y as int) && fx_wf(v.z as int)
}

/// Componentwise clamped sum.
pub open spec fn v3_plus_s(a: Vec3, b: Vec3) -> Vec3 {
    Vec3 {
        x: fx_add_s(a.x as int, b.x as int) as i64,
        y: fx_add_s(a.y as int, b.y as int) as i64,
        z: fx_add_s(a.z as int, b.z as int) as i64,
    }
}

/// Componentwise clamped difference.
pub open spec fn v3_minus_s(a: Vec3, b: Vec3) -> Vec3 {
    Vec3 {
        x: fx_add_s(a.x as int, -b.x as int) as i64,
        y: fx_add_s(a.y as int, -b.y as int) as i64,
        z: fx_add_s(a.z as int, -b.z as int) as i64,
    }
}

/// Componentwise clamped scaling by a fixed-point factor.
pub open spec fn v3_times_s(a: Vec3, s: int) -> Vec3 {
    Vec3 {
        x: fx_mul_s(a.x as int, s) as i64,
        y: fx_mul_s(a.y as int, s) as i64,
        z: fx_mul_s(a.z as int, s) as i64,
    }
}

/// Componentwise clamped negation.
pub open spec fn v3_neg_s(v: Vec3) -> Vec3 {
    Vec3 { x: cl(-v.x) as i64, y: cl(-v.y) as i64, z: cl(-v.z) as i64 }
}

/// Exact squared Euclidean norm.
pub open spec fn v3_norm2_s(v: Vec3) -> int {
    v.x * v.x + v.y * v.y + v.z * v.z
}

/// Componentwise clamped cross product.
pub open spec fn v3_cross_s(a: Vec3, b: Vec3) -> Vec3 {
    Vec3 {
        x: cl(a.y * b.z - a.z * b.y) as i64,
        y: cl(a.z * b.x - a.x * b.z) as i64,
        z: cl(a.x * b.y - a.y * b.x) as i64,
    }
}

/// The vector scaled to length one (in fixed point): each component
/// times the scale, divided by the rounded-down norm. The zero
/// vector stays zero.
pub open spec fn v3_normalize_s(v: Vec3) -> Vec3 {
    let n = crate::math::spec_isqrt(v3_norm2_s(v) as nat) as int;
    if n == 0 {
        Vec3 { x: 0, y: 0, z: 0 }
    } else {
        Vec3 {
            x: cl(crate::math::tdiv(v.x * crate::math::SCALE, n)) as i64,
            y: cl(crate::math::tdiv(v.y * crate::math::SCALE, n)) as i64,
            z: cl(crate::math::tdiv(v.z * crate::math::SCALE, n)) as i64,
        }
    }
}

impl Vec3 {
    /// Build a vector, clamping each component into range.
    pub fn new(x: i64, y: i64, z: i64) -> (r: Vec3)
        ensures
            r.x == cl(x as int),
            r.y == cl(y as int),
            r.z == cl(z as int),
            v3_wf(r),
    {
        Vec3 { x: crate::math::fx_clamp(x), y: crate::math::fx_clamp(y), z: crate::math::fx_clamp(z) }
    }

    /// The zero vector.
    pub fn zero() -> (r: Vec3)
        ensures
            r == (Vec3 { x: 0, y: 0, z: 0 }),
    {
        Vec3 { x: 0, y: 0, z: 0 }
    }

    /// Clamped vector sum.
    pub fn plus(&self, o: &Vec3) -> (r: Vec3)
        requires
            v3_wf(*self),
            v3_wf(*o),
        ensures
            r == v3_plus_s(*self, *o),
            v3_wf(r),
    {
        Vec3 { x: fx_add(self.x, o.x), y: fx_add(self.y, o.y), z: fx_add(self.z, o.z) }
    }

    /// Clamped vector difference.
    pub fn minus(&self, o: &Vec3) -> (r: Vec3)
        requires
            v3_wf(*self),
            v3_wf(*o),
        ensures
            r == v3_minus_s(*self, *o),
            v3_wf(r),
    {
        Vec3 { x: fx_sub(self.x, o.x), y: fx_sub(self.y, o.y), z: fx_sub(self.z, o.z) }
    }

    /// Clamped negation.
    pub fn neg(&self) -> (r: Vec3)
        ensures
            r == v3_neg_s(*self),
            v3_wf(r),
    {
        Vec3 {
            x: crate::math::fx_neg(self.x),
            y: crate::math::fx_neg(self.y),
            z: crate::math::fx_neg(self.z),
        }
    }

    /// Clamped cross product.
    pub fn cross(&self, o: &Vec3) -> (r: Vec3)
        requires
            v3_wf(*self),
            v3_wf(*o),
        ensures
            r == v3_cross_s(*self, *o),
            v3_wf(r),
    {
        proof {
            let fm = FX_MAX as int;
            crate::math::lemma_mul_bound(self.y as int, o.z as int, fm, fm);
            crate::math::lemma_mul_bound(self.z as int, o.y as int, fm, fm);
            crate::math::lemma_mul_bound(self.z as int, o.x as int, fm, fm);
            crate::math::lemma_mul_bound(self.x as int, o.z as int, fm, fm);
            crate::math::lemma_mul_bound(self.x as int, o.y as int, fm, fm);
            crate::math::lemma_mul_bound(self.y as int, o.x as int, fm, fm);
        }
        let cx: i128 = (self.y as i128) * (o.z as i128) - (self.z as i128) * (o.y as i128);
        let cy: i128 = (self.z as i128) * (o.x as i128) - (self.x as i128) * (o.z as i128);
        let cz: i128 = (self.x as i128) * (o.y as i128) - (self.y as i128) * (o.x as i128);
        Vec3 {
            x: crate::math::fx_clamp128(cx),
            y: crate::math::fx_clamp128(cy),
            z: crate::math::fx_clamp128(cz),
        }
    }

    /// Scale to unit length in fixed point; the zero vector stays
    /// zero.
    pub fn normalize(&self) -> (r: Vec3)
        requires
            v3_wf(*self),
        ensures
            r == v3_normalize_s(*self),
            v3_wf(r),
    {
        proof {
            let fm = FX_MAX as int;
            crate::math::lemma_mul_bound(self.x as int, self.x as int, fm, fm);
            crate::math::lemma_mul_bound(self.y as int, self.y as int, fm, fm);
            crate::math::lemma_mul_bound(self.z as int, self.z as int, fm, fm);
            crate::quat::lemma_sq_nonneg(self.x as int);
            crate::quat::lemma_sq_nonneg(self.y as int);
            crate::quat::lemma_sq_nonneg(self.z as int);
        }
        let n2: i128 = (self.x as i128) * (self.x as i128) + (self.y as i128) * (self.y as i128) + (
        self.z as i128) * (self.z as i128);
        let n = crate::math::isqrt_u128(n2 as u128);
        if n == 0 {
            return Vec3 { x: 0, y: 0, z: 0 };
        }
        let nx = crate::math::div_trunc128((self.x as i128) * (crate::math::SCALE as i128), n as i128);
        let ny = crate::math::div_trunc128((self.y as i128) * (crate::math::SCALE as i128), n as i128);
        let nz = crate::math::div_trunc128((self.z as i128) * (crate::math::SCALE as i128), n as i128);
        Vec3 {
            x: crate::math::fx_clamp128(nx),
            y: crate::math::fx_clamp128(ny),
            z: crate::math::fx_clamp128(nz),
        }
    }

    /// Clamped scaling by a fixed-point factor.
    pub fn times(&self, s: i64) -> (r: Vec3)
        requires
            v3_wf(*self),
            fx_wf(s as int),
        ensures
            r == v3_times_s(*self, s as int),
            v3_wf(r),
    {
        Vec3 { x: fx_mul(self.x, s), y: fx_mul(self.y, s), z: fx_mul(self.z, s) }
    }
}

} // verus!
