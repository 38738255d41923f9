//! The closed component universe of the engine: every component type
//! the simulation knows, as one tagged value, and the type identifier
//! that names each component type's table.

use vstd::prelude::*;

use crate::camera::Camera3d;
use crate::camera::CameraController;
use crate::collider::RectangleCollider;
use crate::collider::StationaryPlaneCollider;
use crate::gravity::Gravity;
use crate::label::Label;
use crate::light::Light;
use crate::model::Model3d;
use crate::transform::Transform3d;

verus! {

/// Table identifier of the transform components.
pub const TRANSFORM3D_ID: u64 = 1;

/// Table identifier of the model components.
pub const MODEL3D_ID: u64 = 2;

/// Table identifier of the camera components.
pub const CAMERA3D_ID: u64 = 3;

/// Table identifier of the camera-controller components.
pub const CAMERA_CONTROLLER_ID: u64 = 4;

/// Table identifier of the gravity components.
pub const GRAVITY_ID: u64 = 5;

/// Table identifier of the movable box colliders.
pub const RECTANGLE_COLLIDER_ID: u64 = 6;

/// Table identifier of the stationary plane colliders.
pub const STATIONARY_PLANE_COLLIDER_ID: u64 = 7;

/// Table identifier of the light components.
pub const LIGHT_ID: u64 = 8;

/// Table identifier of the label components.
pub const LABEL_ID: u64 = 9;

/// One component value of any of the engine's component types.
#[derive(Debug)]
pub enum Component {
    Transform(Transform3d),
    Model(Model3d),
    Camera(Camera3d),
    Controller(CameraController),
    Gravity(Gravity),
    Rectangle(RectangleCollider),
    Plane(StationaryPlaneCollider),
    Light(Light),
    Label(Label),
}

/// The table identifier a component value belongs to.
pub open spec fn component_type_id_s(c: Component) -> u64 {
    match c {
        Component::Transform(_) => TRANSFORM3D_ID,
        Component::Model(_) => MODEL3D_ID,
        Component::Camera(_) => CAMERA3D_ID,
        Component::Controller(_) => CAMERA_CONTROLLER_ID,
        Component::Gravity(_) => GRAVITY_ID,
        Component::Rectangle(_) => RECTANGLE_COLLIDER_ID,
        Component::Plane(_) => STATIONARY_PLANE_COLLIDER_ID,
        Component::Light(_) => LIGHT_ID,
        Component::Label(_) => LABEL_ID,
    }
}

/// Whatever numeric state the component carries is in range.
pub open spec fn component_wf(c: Component) -> bool {
    match c {
        Component::Transform(t) => t.wf(),
        Component::Model(_) => true,
        Component::Camera(cam) => cam.wf(),
        Component::Controller(_) => true,
        Component::Gravity(g) => g.wf(),
        Component::Rectangle(r) => r.wf(),
        Component::Plane(p) => p.wf(),
        Component::Light(l) => l.wf(),
        Component::Label(_) => true,
    }
}

/// The table identifier a component value belongs to.
pub fn component_type_id(c: &Component) -> (r: u64)
    ensures
        r == component_type_id_s(*c),
{
    match c {
        Component::Transform(_) => TRANSFORM3D_ID,
        Component::Model(_) => MODEL3D_ID,
        Component::Camera(_) => CAMERA3D_ID,
        Component::Controller(_) => CAMERA_CONTROLLER_ID,
        Component::Gravity(_) => GRAVITY_ID,
        Component::Rectangle(_) => RECTANGLE_COLLIDER_ID,
        Component::Plane(_) => STATIONARY_PLANE_COLLIDER_ID,
        Component::Light(_) => LIGHT_ID,
        Component::Label(_) => LABEL_ID,
    }
}

} // verus!
