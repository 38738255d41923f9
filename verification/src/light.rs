//! The light component: a coloured point light mirrored into a
//! renderer slot.

use vstd::prelude::*;

use crate::vec3::Vec3;
use crate::vec3::v3_wf;

verus! {

/// A point light: its position, colour, and the renderer light slot
/// it occupies once registered.
#[derive(Clone, Copy, PartialEq, Eq, Debug)]
pub struct Light {
    pub position: Vec3,
    pub color: (i64, i64, i64),
    pub index: usize,
}

impl Light {
    /// Position is in range.
    pub open spec fn wf(self) -> bool {
        v3_wf(self.position)
    }

    /// A light of the given colour at the world origin, not yet
    /// registered with the renderer.
    pub fn new(color: (i64, i64, i64)) -> (r: Light)
        ensures
            r.position == (Vec3 { x: 0, y: 0, z: 0 }),
            r.color == color,
            r.index == 0,
            r.wf(),
    {
        Light { position: Vec3::zero(), color, index: 0 }
    }

    /// Move the light.
    pub fn update_position(&mut self, position: &Vec3)
        requires
            v3_wf(*position),
        ensures
            *final(self) == (Light { position: *position, ..*old(self) }),
            final(self).wf(),
    {
        self.position = *position;
    }
}

} // verus!
