//! The camera component and its controller: view state moved and
//! turned by decoded input intents.
//!
//! Turning uses small-angle fixed-point series for the half-angle
//! sine and cosine (exact integer formulas, stated below), and the
//! exact quaternion rotation of the target vector. Rotation axes are
//! scaled to unit length first, so the turn angle does not depend on
//! the axis magnitude.

use vstd::prelude::*;

use crate::math::SCALE;
use crate::math::fx_clamp;
use crate::math::fx_mul;
use crate::math::fx_mul_s;
use crate::math::fx_half;
use crate::math::fx_wf;
use crate::math::half_s;
use crate::math::tdiv;
use crate::quat::Quat;
use crate::quat::q_rotate_s;
use crate::quat::qcl;
use crate::vec3::Vec3;
use crate::vec3::v3_cross_s;
use crate::vec3::v3_minus_s;
use crate::vec3::v3_normalize_s;
use crate::vec3::v3_plus_s;
use crate::vec3::v3_times_s;
use crate::vec3::v3_wf;

verus! {

/// How fast a movement intent travels, in fixed point (fifty world
/// units per second).
pub const CAMERA_SPEED: i64 = 50_000;

/// How strongly a rotation intent turns, in fixed point (one
/// hundredth of a radian per intent unit).
pub const ANGLE_SPEED: i64 = 10;

/// Largest half-angle the series are used for: about a quarter turn,
/// in thousandths of a radian. Larger intents are clamped here.
pub const HALF_ANGLE_MAX: i64 = 1_570;

/// Clamp a half-angle into the range the series cover.
pub open spec fn acl(x: int) -> int {
    if x > HALF_ANGLE_MAX as int {
        HALF_ANGLE_MAX as int
    } else if x < -(HALF_ANGLE_MAX as int) {
        -(HALF_ANGLE_MAX as int)
    } else {
        x
    }
}

/// Cubic series for the sine of a small fixed-point angle:
/// `x - x^3 / 6` carried out in thousandths.
pub open spec fn rot_sin_s(x: int) -> int {
    x - tdiv(x * x * x, 6_000_000)
}

/// Quartic series for the cosine of a small fixed-point angle:
/// `1 - x^2 / 2 + x^4 / 24` carried out in thousandths.
pub open spec fn rot_cos_s(x: int) -> int {
    SCALE - tdiv(x * x, 2 * (SCALE as int)) + tdiv(x * x * (x * x), 24_000_000_000)
}

/// The rotation quaternion for a unit axis and a half-angle.
pub open spec fn rot_quat_s(axis: Vec3, half: int) -> Quat {
    Quat {
        w: qcl(rot_cos_s(half)) as i64,
        x: qcl(fx_mul_s(axis.x as int, rot_sin_s(half))) as i64,
        y: qcl(fx_mul_s(axis.y as int, rot_sin_s(half))) as i64,
        z: qcl(fx_mul_s(axis.z as int, rot_sin_s(half))) as i64,
    }
}

/// Sine series, executable.
pub fn rot_sin(x: i64) -> (r: i64)
    requires
        -HALF_ANGLE_MAX <= x <= HALF_ANGLE_MAX,
    ensures
        r == rot_sin_s(x as int),
        -3000 <= r <= 3000,
{
    proof {
        crate::math::lemma_mul_bound(x as int, x as int, 1570, 1570);
        crate::math::lemma_mul_bound(x as int * x as int, x as int, 2_464_900, 1570);
    }
    let sq: i128 = (x as i128) * (x as i128);
    let cube: i128 = sq * (x as i128);
    let c = crate::math::div_trunc128(cube, 6_000_000);
    proof {
        crate::math::lemma_tdiv_bound(cube as int, 6_000_000, 3_869_893_000);
    }
    assert(-645 <= c <= 645);
    x - (c as i64)
}

/// Cosine series, executable.
pub fn rot_cos(x: i64) -> (r: i64)
    requires
        -HALF_ANGLE_MAX <= x <= HALF_ANGLE_MAX,
    ensures
        r == rot_cos_s(x as int),
        -3000 <= r <= 3000,
{
    proof {
        crate::math::lemma_mul_bound(x as int, x as int, 1570, 1570);
        crate::quat::lemma_sq_nonneg(x as int);
        crate::math::lemma_mul_bound(
            x as int * x as int,
            x as int * x as int,
            2_464_900,
            2_464_900,
        );
        crate::quat::lemma_sq_nonneg(x as int * x as int);
    }
    let sq: i128 = (x as i128) * (x as i128);
    let c2 = crate::math::div_trunc128(sq, 2 * (SCALE as i128));
    let c4 = crate::math::div_trunc128(sq * sq, 24_000_000_000);
    proof {
        crate::math::lemma_tdiv_bound(sq as int, 2000, 2_464_900);
        crate::math::lemma_tdiv_bound(sq as int * sq as int, 24_000_000_000, 6_077_732_410_000);
    }
    assert(0 <= c2 <= 1233);
    assert(0 <= c4 <= 254);
    SCALE - (c2 as i64) + (c4 as i64)
}

/// The camera: where it stands, where it looks, which way is up, and
/// the projection parameters the renderer needs. The flag records an
/// unsynchronised change.
#[derive(Clone, Copy, PartialEq, Eq, Structural, Debug)]
pub struct Camera3d {
    pub eye: Vec3,
    pub target: Vec3,
    pub up: Vec3,
    pub aspect: i64,
    pub fovy: i64,
    pub znear: i64,
    pub zfar: i64,
    pub update_flag: bool,
}

/// The camera after turning its target around a (not yet normalised)
/// axis by an intent of the given strength.
pub open spec fn cam_turn_s(c: Camera3d, axis_src: Vec3, angle: int) -> Camera3d {
    let half = acl(half_s(fx_mul_s(angle, ANGLE_SPEED as int)));
    let axis = v3_normalize_s(axis_src);
    let q = rot_quat_s(axis, half);
    Camera3d { target: q_rotate_s(q, c.target), update_flag: true, ..c }
}

/// One movement step: the unit direction scaled by the elapsed time
/// and the camera speed.
pub open spec fn cam_step_s(dir: Vec3, dt: int) -> Vec3 {
    v3_times_s(v3_times_s(dir, dt), CAMERA_SPEED as int)
}

/// The camera after applying the four movement intents for `dt`
/// seconds: forward and backward along the viewing direction, and
/// strafing along the right-hand axis.
pub open spec fn cam_move_s(
    c: Camera3d,
    forward: bool,
    backward: bool,
    strafe_left: bool,
    strafe_right: bool,
    dt: int,
) -> Camera3d {
    let f = v3_normalize_s(c.target);
    let fstep = cam_step_s(f, dt);
    let e1 = if forward {
        v3_plus_s(c.eye, fstep)
    } else {
        c.eye
    };
    let e2 = if backward {
        v3_minus_s(e1, fstep)
    } else {
        e1
    };
    let right = v3_cross_s(f, c.up);
    let rstep = cam_step_s(right, dt);
    let e3 = if strafe_left {
        v3_minus_s(e2, rstep)
    } else {
        e2
    };
    let e4 = if strafe_right {
        v3_plus_s(e3, rstep)
    } else {
        e3
    };
    Camera3d {
        eye: e4,
        update_flag: c.update_flag || forward || backward || strafe_left || strafe_right,
        ..c
    }
}

impl Camera3d {
    /// All stored vectors and parameters are in range.
    pub open spec fn wf(self) -> bool {
        &&& v3_wf(self.eye)
        &&& v3_wf(self.target)
        &&& v3_wf(self.up)
        &&& fx_wf(self.aspect as int)
        &&& fx_wf(self.fovy as int)
        &&& fx_wf(self.znear as int)
        &&& fx_wf(self.zfar as int)
    }

    /// A camera that still has to be pushed to the renderer.
    pub fn new(
        eye: Vec3,
        target: Vec3,
        up: Vec3,
        aspect: i64,
        fovy: i64,
        znear: i64,
        zfar: i64,
    ) -> (r: Camera3d)
        requires
            v3_wf(eye),
            v3_wf(target),
            v3_wf(up),
            fx_wf(aspect as int),
            fx_wf(fovy as int),
            fx_wf(znear as int),
            fx_wf(zfar as int),
        ensures
            r == (Camera3d { eye, target, up, aspect, fovy, znear, zfar, update_flag: true }),
            r.wf(),
    {
        Camera3d { eye, target, up, aspect, fovy, znear, zfar, update_flag: true }
    }

    /// Turn the viewing direction up or down around the camera's
    /// right-hand axis.
    pub fn add_pitch(&mut self, angle: i64)
        requires
            old(self).wf(),
            fx_wf(angle as int),
        ensures
            *final(self) == cam_turn_s(
                *old(self),
                v3_cross_s(v3_normalize_s(old(self).target), old(self).up),
                angle as int,
            ),
            final(self).wf(),
    {
        let forward_norm = self.target.normalize();
        let right = forward_norm.cross(&self.up);
        self.turn(right, angle);
    }

    /// Turn the viewing direction left or right around the camera's
    /// up axis.
    pub fn add_yaw(&mut self, angle: i64)
        requires
            old(self).wf(),
            fx_wf(angle as int),
        ensures
            *final(self) == cam_turn_s(*old(self), old(self).up, angle as int),
            final(self).wf(),
    {
        let up = self.up;
        self.turn(up, angle);
    }

    /// Shared turning step: normalise the axis, build the rotation
    /// quaternion from the half-angle series, rotate the target.
    fn turn(&mut self, axis_src: Vec3, angle: i64)
        requires
            old(self).wf(),
            v3_wf(axis_src),
            fx_wf(angle as int),
        ensures
            *final(self) == cam_turn_s(*old(self), axis_src, angle as int),
            final(self).wf(),
    {
        let scaled = fx_mul(angle, ANGLE_SPEED);
        let half_raw = fx_half(scaled);
        let half = if half_raw > HALF_ANGLE_MAX {
            HALF_ANGLE_MAX
        } else if half_raw < -HALF_ANGLE_MAX {
            -HALF_ANGLE_MAX
        } else {
            half_raw
        };
        let axis = axis_src.normalize();
        let s = rot_sin(half);
        let c = rot_cos(half);
        let q = Quat::new(c, fx_mul(axis.x, s), fx_mul(axis.y, s), fx_mul(axis.z, s));
        self.target = q.rotate_vector(&self.target);
        self.update_flag = true;
    }

    /// Apply the held movement intents for `dt` seconds.
    pub fn update_camera(
        &mut self,
        forward: bool,
        backward: bool,
        strafe_left: bool,
        strafe_right: bool,
        _turn_left: bool,
        _turn_right: bool,
        delta_time: i64,
    )
        requires
            old(self).wf(),
            fx_wf(delta_time as int),
        ensures
            *final(self) == cam_move_s(
                *old(self),
                forward,
                backward,
                strafe_left,
                strafe_right,
                delta_time as int,
            ),
            final(self).wf(),
    {
        let forward_norm = self.target.normalize();
        let fstep = forward_norm.times(delta_time).times(CAMERA_SPEED);
        if forward {
            self.eye = self.eye.plus(&fstep);
            self.update_flag = true;
        }
        if backward {
            self.eye = self.eye.minus(&fstep);
            self.update_flag = true;
        }
        let right = forward_norm.cross(&self.up);
        let rstep = right.times(delta_time).times(CAMERA_SPEED);
        if strafe_left {
            self.eye = self.eye.minus(&rstep);
            self.update_flag = true;
        }
        if strafe_right {
            self.eye = self.eye.plus(&rstep);
            self.update_flag = true;
        }
    }

    /// Move the camera to a position and mark it unsynchronised.
    pub fn set_position(&mut self, position: Vec3)
        requires
            old(self).wf(),
            v3_wf(position),
        ensures
            *final(self) == (Camera3d { eye: position, update_flag: true, ..*old(self) }),
            final(self).wf(),
    {
        self.eye = position;
        self.update_flag = true;
    }

    /// Whether the camera changed since the last renderer sync.
    pub fn get_update_flag(&self) -> (r: bool)
        ensures
            r == self.update_flag,
    {
        self.update_flag
    }
}

/// Decoded input intents: which movement keys are held, and the
/// pending rotation deltas.
#[derive(Clone, Copy, PartialEq, Eq, Debug)]
pub struct CameraController {
    pub forward: bool,
    pub backward: bool,
    pub left: bool,
    pub right: bool,
    pub delta: (i64, i64),
}

impl Default for CameraController {
    /// No keys held, no pending rotation.
    fn default() -> (r: CameraController)
        ensures
            r == (CameraController {
                forward: false,
                backward: false,
                left: false,
                right: false,
                delta: (0, 0),
            }),
    {
        CameraController { forward: false, backward: false, left: false, right: false, delta: (0, 0) }
    }
}

} // verus!
