//! Position and rotation of an entity, with a dirty flag that records
//! whether the renderer still has to be told about a change.

use vstd::prelude::*;

use crate::quat::Quat;
use crate::quat::q_wf;
use crate::vec3::Vec3;
use crate::vec3::v3_plus_s;
use crate::vec3::v3_wf;

verus! {

/// World placement of an entity. The flag is true exactly when the
/// placement changed since the renderer was last synchronised.
#[derive(Clone, Copy, PartialEq, Eq, Structural, Debug)]
pub struct Transform3d {
    pub position: Vec3,
    pub rotation: Quat,
    pub update_flag: bool,
}

impl Transform3d {
    /// Both stored quantities are in range.
    pub open spec fn wf(self) -> bool {
        v3_wf(self.position) && q_wf(self.rotation)
    }

    /// The stored position.
    pub open spec fn spec_position(self) -> Vec3 {
        self.position
    }

    /// The stored rotation.
    pub open spec fn spec_rotation(self) -> Quat {
        self.rotation
    }

    /// The dirty flag.
    pub open spec fn spec_update_flag(self) -> bool {
        self.update_flag
    }

    /// A fresh transform; it counts as already synchronised.
    pub fn new(position: Vec3, rotation: Quat) -> (r: Transform3d)
        requires
            v3_wf(position),
            q_wf(rotation),
        ensures
            r == (Transform3d { position, rotation, update_flag: false }),
            r.wf(),
    {
        Transform3d { position, rotation, update_flag: false }
    }

    /// Move to a new position and mark the transform dirty.
    pub fn update_position(&mut self, new_position: Vec3)
        requires
            old(self).wf(),
            v3_wf(new_position),
        ensures
            *final(self) == (Transform3d {
                position: new_position,
                rotation: old(self).rotation,
                update_flag: true,
            }),
            final(self).wf(),
    {
        self.position = new_position;
        self.update_flag = true;
    }

    /// Translate by the given offset and mark the transform dirty.
    pub fn add_position(&mut self, position_add: Vec3)
        requires
            old(self).wf(),
            v3_wf(position_add),
        ensures
            *final(self) == (Transform3d {
                position: v3_plus_s(old(self).position, position_add),
                rotation: old(self).rotation,
                update_flag: true,
            }),
            final(self).wf(),
    {
        self.position = self.position.plus(&position_add);
        self.update_flag = true;
    }

    /// Turn to a new rotation and mark the transform dirty.
    pub fn update_rotation(&mut self, new_rotation: Quat)
        requires
            old(self).wf(),
            q_wf(new_rotation),
        ensures
            *final(self) == (Transform3d {
                position: old(self).position,
                rotation: new_rotation,
                update_flag: true,
            }),
            final(self).wf(),
    {
        self.rotation = new_rotation;
        self.update_flag = true;
    }

    /// Replace position and rotation together and mark the transform
    /// dirty.
    pub fn update_transform(&mut self, new_position: Vec3, new_rotation: Quat)
        requires
            old(self).wf(),
            v3_wf(new_position),
            q_wf(new_rotation),
        ensures
            *final(self) == (Transform3d {
                position: new_position,
                rotation: new_rotation,
                update_flag: true,
            }),
            final(self).wf(),
    {
        self.position = new_position;
        self.rotation = new_rotation;
        self.update_flag = true;
    }

    /// Record that the renderer has been synchronised.
    pub fn update(&mut self)
        requires
            old(self).wf(),
        ensures
            *final(self) == (Transform3d { update_flag: false, ..*old(self) }),
            final(self).wf(),
    {
        self.update_flag = false;
    }

    /// Whether the placement changed since the last synchronisation.
    pub fn get_update_flag(&self) -> (r: bool)
        ensures
            r == self.spec_update_flag(),
    {
        self.update_flag
    }

    /// The current position.
    pub fn get_position(&self) -> (r: &Vec3)
        ensures
            *r == self.spec_position(),
    {
        &self.position
    }

    /// The current rotation.
    pub fn get_rotation(&self) -> (r: &Quat)
        ensures
            *r == self.spec_rotation(),
    {
        &self.rotation
    }

    /// Turn to a new rotation and mark the transform dirty.
    pub fn set_rotation(&mut self, new_rotation: Quat)
        requires
            old(self).wf(),
            q_wf(new_rotation),
        ensures
            *final(self) == (Transform3d {
                position: old(self).position,
                rotation: new_rotation,
                update_flag: true,
            }),
            final(self).wf(),
    {
        self.rotation = new_rotation;
        self.update_flag = true;
    }

    /// Position and rotation together.
    pub fn get_transform(&self) -> (r: (&Vec3, &Quat))
        ensures
            *r.0 == self.spec_position(),
            *r.1 == self.spec_rotation(),
    {
        (&self.position, &self.rotation)
    }

    /// Translate the given transform and mark it dirty.
    pub fn translate(transform: &mut Transform3d, translation: Vec3)
        requires
            old(transform).wf(),
            v3_wf(translation),
        ensures
            *final(transform) == (Transform3d {
                position: v3_plus_s(old(transform).position, translation),
                rotation: old(transform).rotation,
                update_flag: true,
            }),
            final(transform).wf(),
    {
        transform.position = transform.position.plus(&translation);
        transform.update_flag = true;
    }

    /// Move the given transform to a position and mark it dirty.
    pub fn set_position(transform: &mut Transform3d, position: Vec3)
        requires
            old(transform).wf(),
            v3_wf(position),
        ensures
            *final(transform) == (Transform3d {
                position,
                rotation: old(transform).rotation,
                update_flag: true,
            }),
            final(transform).wf(),
    {
        transform.position = position;
        transform.update_flag = true;
    }
}

impl Default for Transform3d {
    /// The origin with the identity rotation, already synchronised.
    fn default() -> (r: Transform3d)
        ensures
            r == (Transform3d {
                position: Vec3 { x: 0, y: 0, z: 0 },
                rotation: Quat::identity_s(),
                update_flag: false,
            }),
    {
        Transform3d { position: Vec3::zero(), rotation: Quat::identity(), update_flag: false }
    }
}

} // verus!
