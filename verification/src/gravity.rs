//! Per-entity gravity state: an accumulating velocity and a constant
//! acceleration, advanced by semi-implicit Euler integration.

use vstd::prelude::*;

use crate::math::fx_wf;
use crate::vec3::Vec3;
use crate::vec3::v3_plus_s;
use crate::vec3::v3_times_s;
use crate::vec3::v3_wf;

verus! {

/// Velocity accumulated so far plus the constant acceleration that
/// drives it.
#[derive(Clone, Copy, PartialEq, Eq, Structural, Debug)]
pub struct Gravity {
    pub velocity: Vec3,
    pub acceleration: Vec3,
}

/// The integration step: velocity grows by acceleration times the
/// elapsed time; the acceleration itself never changes.
pub open spec fn gravity_step_s(g: Gravity, dt: int) -> Gravity {
    Gravity { velocity: v3_plus_s(g.velocity, v3_times_s(g.acceleration, dt)), ..g }
}

impl Gravity {
    /// Both stored vectors are in range.
    pub open spec fn wf(self) -> bool {
        v3_wf(self.velocity) && v3_wf(self.acceleration)
    }

    /// The stored acceleration.
    pub open spec fn spec_acceleration(self) -> Vec3 {
        self.acceleration
    }

    /// A body at rest under the given constant acceleration.
    pub fn new(gravitational_constant: Vec3) -> (r: Gravity)
        requires
            v3_wf(gravitational_constant),
        ensures
            r.velocity == (Vec3 { x: 0, y: 0, z: 0 }),
            r.spec_acceleration() == gravitational_constant,
            r.wf(),
    {
        Gravity { velocity: Vec3::zero(), acceleration: gravitational_constant }
    }

    /// Advance the velocity by one step of `dt` seconds (fixed point).
    pub fn update_gravity(&mut self, delta_time: i64)
        requires
            old(self).wf(),
            fx_wf(delta_time as int),
        ensures
            *final(self) == gravity_step_s(*old(self), delta_time as int),
            final(self).wf(),
    {
        self.velocity = self.velocity.plus(&self.acceleration.times(delta_time));
    }

    /// Replace the constant acceleration; the velocity is untouched.
    pub fn set_gravity(&mut self, gravitational_constant: Vec3)
        requires
            old(self).wf(),
            v3_wf(gravitational_constant),
        ensures
            final(self).spec_acceleration() == gravitational_constant,
            final(self).velocity == old(self).velocity,
            final(self).wf(),
    {
        self.acceleration = gravitational_constant;
    }

    /// Reset the velocity to exactly zero (used on ground contact).
    pub fn kill_velocity(&mut self)
        requires
            old(self).wf(),
        ensures
            final(self).velocity == (Vec3 { x: 0, y: 0, z: 0 }),
            final(self).spec_acceleration() == old(self).spec_acceleration(),
            final(self).wf(),
    {
        self.velocity = Vec3::zero();
    }
}

} // verus!
