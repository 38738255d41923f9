use helium::camera::Camera3d;
use helium::camera::CameraController;
use helium::collider::RectangleCollider;
use helium::collider::StationaryPlaneCollider;
use helium::component::Component;
use helium::component::CAMERA3D_ID;
use helium::component::GRAVITY_ID;
use helium::component::RECTANGLE_COLLIDER_ID;
use helium::component::TRANSFORM3D_ID;
use helium::ecs::HeliumECS;
use helium::gravity::Gravity;
use helium::manager::HeliumManager;
use helium::manager::ManagerError;
use helium::manager::RenderCommand;
use helium::model::Model3d;
use helium::tick::handle_gravity_collisions;
use helium::tick::update_cameras;
use helium::tick::update_transforms_to_renderer;
use helium::transform::Transform3d;
use helium::Quat;
use helium::Vec3;

fn fresh_manager() -> HeliumManager {
    HeliumManager::new(HeliumECS::new())
}

fn gravity_of(m: &HeliumManager, e: usize) -> Gravity {
    match m.query(GRAVITY_ID).unwrap().get(e).unwrap() {
        Component::Gravity(g) => *g,
        _ => panic!("expected a gravity component"),
    }
}

fn transform_of(m: &HeliumManager, e: usize) -> Transform3d {
    match m.query(TRANSFORM3D_ID).unwrap().get(e).unwrap() {
        Component::Transform(t) => *t,
        _ => panic!("expected a transform component"),
    }
}

fn camera_of(m: &HeliumManager, e: usize) -> Camera3d {
    match m.query(CAMERA3D_ID).unwrap().get(e).unwrap() {
        Component::Camera(c) => *c,
        _ => panic!("expected a camera component"),
    }
}

fn collider_of(m: &HeliumManager, e: usize) -> RectangleCollider {
    match m.query(RECTANGLE_COLLIDER_ID).unwrap().get(e).unwrap() {
        Component::Rectangle(r) => *r,
        _ => panic!("expected a box collider"),
    }
}

#[test]
fn test_gravity_unit_step() {
    // One second of integration from rest yields exactly the
    // constant acceleration as velocity; killing the velocity zeroes
    // it exactly.
    let mut g = Gravity::new(Vec3::new(0, -9800, 0));
    assert_eq!(g.velocity, Vec3::zero());
    g.update_gravity(1000);
    assert_eq!(g.velocity, Vec3::new(0, -9800, 0));
    g.update_gravity(500);
    assert_eq!(g.velocity, Vec3::new(0, -14700, 0));
    g.kill_velocity();
    assert_eq!(g.velocity, Vec3::zero());
}

#[test]
fn test_free_fall_tick() {
    // An entity with gravity and no collider accelerates and then
    // falls by the new velocity.
    let mut manager = fresh_manager();
    let e = manager.create_entity();
    manager.add_component(e, Component::Gravity(Gravity::new(Vec3::new(0, -9800, 0))));
    manager.add_component(
        e,
        Component::Transform(Transform3d::new(Vec3::zero(), Quat::identity())),
    );
    manager.delta_time = 1000;

    handle_gravity_collisions(&mut manager);

    assert_eq!(gravity_of(&manager, e).velocity, Vec3::new(0, -9800, 0));
    assert_eq!(transform_of(&manager, e).position, Vec3::new(0, -9800, 0));
    assert!(transform_of(&manager, e).update_flag);
}

#[test]
fn test_resting_on_plane_tick() {
    // A box resting on a plane is snapped (to where it already is)
    // and its velocity is zeroed instead of falling through.
    let mut manager = fresh_manager();
    let floor = manager.create_entity();
    manager.add_component(
        floor,
        Component::Plane(
            StationaryPlaneCollider::new(10000, 10000, Vec3::zero(), Quat::identity()).unwrap(),
        ),
    );
    let e = manager.create_entity();
    manager.add_component(e, Component::Gravity(Gravity::new(Vec3::new(0, -9800, 0))));
    manager.add_component(
        e,
        Component::Rectangle(RectangleCollider::new(5000, 5000, 5000, Vec3::new(0, 2500, 0))),
    );
    manager.add_component(
        e,
        Component::Transform(Transform3d::new(Vec3::new(0, 2500, 0), Quat::identity())),
    );
    manager.delta_time = 1000;

    handle_gravity_collisions(&mut manager);

    assert_eq!(gravity_of(&manager, e).velocity, Vec3::zero());
    assert_eq!(collider_of(&manager, e).origin, Vec3::new(0, 2500, 0));
    assert_eq!(transform_of(&manager, e).position, Vec3::new(0, 2500, 0));
}

#[test]
fn test_create_object_queues_load() {
    let mut manager = fresh_manager();
    let t = Transform3d::new(Vec3::new(0, 15000, 0), Quat::identity());
    let e = manager.create_object(Model3d::from_obj(String::from("assets/cube.obj")), t);

    // The model is linked to the first renderer slot.
    let cmds = manager.take_render_commands();
    assert_eq!(cmds.len(), 1);
    match &cmds[0] {
        RenderCommand::CreateObject { entity, object_index, path, position, .. } => {
            assert_eq!(*entity, e);
            assert_eq!(*object_index, 0);
            assert_eq!(path.as_str(), "assets/cube.obj");
            assert_eq!(*position, Vec3::new(0, 15000, 0));
        },
        _ => panic!("expected an object load command"),
    }
}

#[test]
fn test_dirty_transform_sync() {
    // A dirty transform is pushed to the renderer, mirrored into the
    // entity's collider, and its flag is cleared.
    let mut manager = fresh_manager();
    let t = Transform3d::new(Vec3::zero(), Quat::identity());
    let e = manager.create_object(Model3d::from_obj(String::from("assets/cube.obj")), t);
    manager.add_component(
        e,
        Component::Rectangle(RectangleCollider::new(1000, 1000, 1000, Vec3::zero())),
    );
    manager.take_render_commands();

    let mut moved = t;
    moved.update_position(Vec3::new(4000, 5000, 6000));
    manager.add_component(e, Component::Transform(moved));

    update_transforms_to_renderer(&mut manager);

    let after = transform_of(&manager, e);
    assert_eq!(after.position, Vec3::new(4000, 5000, 6000));
    assert!(!after.update_flag);
    assert_eq!(collider_of(&manager, e).origin, Vec3::new(4000, 5000, 6000));

    let cmds = manager.take_render_commands();
    assert_eq!(cmds.len(), 1);
    match &cmds[0] {
        RenderCommand::UpdateInstance { object_index, position, .. } => {
            assert_eq!(*object_index, 0);
            assert_eq!(*position, Vec3::new(4000, 5000, 6000));
        },
        _ => panic!("expected an instance update"),
    }

    // A second sync with nothing dirty queues nothing.
    update_transforms_to_renderer(&mut manager);
    assert_eq!(manager.take_render_commands().len(), 0);
}

#[test]
fn test_camera_controller_tick() {
    // A controller with no pending rotation leaves the camera's
    // direction alone, consumes its deltas, moves the entity forward,
    // and queues a camera update.
    let mut manager = fresh_manager();
    let cam = Camera3d::new(
        Vec3::new(5000, 5000, 5000),
        Vec3::new(0, 0, -1000),
        Vec3::new(0, 1000, 0),
        1000,
        45000,
        100,
        100000,
    );
    let e = manager.create_camera(cam);
    manager.add_component(e, Component::Controller(CameraController {
        forward: true,
        backward: false,
        left: false,
        right: false,
        delta: (0, 0),
    }));
    manager.add_component(
        e,
        Component::Transform(Transform3d::new(Vec3::zero(), Quat::identity())),
    );
    manager.delta_time = 1000;
    manager.take_render_commands();

    update_cameras(&mut manager);

    let cam2 = camera_of(&manager, e);
    assert_eq!(cam2.target, Vec3::new(0, 0, -1000));

    // Moving forward for one second at fifty units per second.
    assert_eq!(transform_of(&manager, e).position, Vec3::new(0, 0, -50000));

    let cmds = manager.take_render_commands();
    assert_eq!(cmds.len(), 1);
    assert!(matches!(cmds[0], RenderCommand::UpdateCamera(_)));
}

#[test]
fn test_update_camera_without_registration() {
    let mut manager = fresh_manager();
    let cam = Camera3d::new(
        Vec3::zero(),
        Vec3::new(0, 0, -1000),
        Vec3::new(0, 1000, 0),
        1000,
        45000,
        100,
        100000,
    );
    assert_eq!(manager.update_camera(cam), Err(ManagerError::NoCameraRegistered));

    manager.create_camera(cam);
    assert_eq!(manager.update_camera(cam), Ok(()));
}

#[test]
fn test_entities_with_comparator() {
    let mut manager = fresh_manager();
    let a = manager.create_entity();
    let b = manager.create_entity();
    manager.add_component(a, Component::Gravity(Gravity::new(Vec3::new(0, -9800, 0))));
    manager.add_component(b, Component::Gravity(Gravity::new(Vec3::zero())));

    let heavy = manager.entities_with(GRAVITY_ID, |c: &Component| match c {
        Component::Gravity(g) => g.acceleration.y < 0,
        _ => false,
    });
    assert_eq!(heavy, vec![a]);
}
