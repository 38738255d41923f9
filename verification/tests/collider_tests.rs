use helium::collider::AxisRange;
use helium::collider::Collider;
use helium::collider::GeometryError;
use helium::collider::RectangleCollider;
use helium::collider::StationaryPlaneCollider;
use helium::Quat;
use helium::Vec3;

fn boxed(width: i64, height: i64, length: i64, origin: Vec3) -> RectangleCollider {
    RectangleCollider::new(width, height, length, origin)
}

#[test]
fn test_rectangle_colliders_x() {
    let collider_1 = boxed(5000, 5000, 5000, Vec3::zero());

    let collider_2 = boxed(5000, 5000, 5000, Vec3::new(4000, 0, 0));
    assert!(collider_1.is_colliding(&Collider::Rectangle(collider_2)));

    let collider_2 = boxed(5000, 5000, 5000, Vec3::new(6000, 0, 0));
    assert!(!collider_1.is_colliding(&Collider::Rectangle(collider_2)));

    let collider_2 = boxed(5000, 5000, 5000, Vec3::new(5000, 0, 0));
    assert!(collider_1.is_colliding(&Collider::Rectangle(collider_2)));
}

#[test]
fn test_rectangle_colliders_y() {
    let collider_1 = boxed(5000, 5000, 5000, Vec3::zero());

    let collider_2 = boxed(5000, 5000, 5000, Vec3::new(0, 4000, 0));
    assert!(collider_1.is_colliding(&Collider::Rectangle(collider_2)));

    let collider_2 = boxed(5000, 5000, 5000, Vec3::new(0, 6000, 0));
    assert!(!collider_1.is_colliding(&Collider::Rectangle(collider_2)));

    let collider_2 = boxed(5000, 5000, 5000, Vec3::new(0, 5000, 0));
    assert!(collider_1.is_colliding(&Collider::Rectangle(collider_2)));
}

#[test]
fn test_rectangle_colliders_z() {
    let collider_1 = boxed(5000, 5000, 5000, Vec3::zero());

    let collider_2 = boxed(5000, 5000, 5000, Vec3::new(0, 0, 4000));
    assert!(collider_1.is_colliding(&Collider::Rectangle(collider_2)));

    let collider_2 = boxed(5000, 5000, 5000, Vec3::new(0, 0, 6000));
    assert!(!collider_1.is_colliding(&Collider::Rectangle(collider_2)));

    let collider_2 = boxed(5000, 5000, 5000, Vec3::new(0, 0, 5000));
    assert!(collider_1.is_colliding(&Collider::Rectangle(collider_2)));
}

#[test]
fn test_rectangle_rectangle_snap() {
    let mut collider_1 = boxed(3000, 6000, 1000, Vec3::new(3500, 4000, 0));
    let collider_2 = boxed(4000, 4000, 1000, Vec3::new(6000, 7000, 0));

    assert!(collider_1.is_colliding(&Collider::Rectangle(collider_2)));

    collider_1.snap(&Collider::Rectangle(collider_2));

    assert_eq!(collider_1, boxed(3000, 6000, 1000, Vec3::new(2500, 2000, 0)));
}

#[test]
fn test_rectangle_rectangle_snap_x() {
    let mut collider_1 = boxed(3000, 6000, 1000, Vec3::new(3500, 4000, 0));
    let collider_2 = boxed(4000, 4000, 1000, Vec3::new(6000, 7000, 0));

    assert!(collider_1.is_colliding(&Collider::Rectangle(collider_2)));

    collider_1.snap_x(&Collider::Rectangle(collider_2));

    assert_eq!(collider_1, boxed(3000, 6000, 1000, Vec3::new(2500, 4000, 0)));
}

#[test]
fn test_rectangle_rectangle_snap_y() {
    let mut collider_1 = boxed(3000, 6000, 1000, Vec3::new(3500, 4000, 0));
    let collider_2 = boxed(4000, 4000, 1000, Vec3::new(6000, 7000, 0));

    assert!(collider_1.is_colliding(&Collider::Rectangle(collider_2)));

    collider_1.snap_y(&Collider::Rectangle(collider_2));

    assert_eq!(collider_1, boxed(3000, 6000, 1000, Vec3::new(3500, 2000, 0)));
}

#[test]
fn test_rectangle_rectangle_snap_z() {
    let mut collider_1 = boxed(3000, 6000, 1000, Vec3::new(3500, 4000, 0));
    let collider_2 = boxed(4000, 4000, 1000, Vec3::new(6000, 7000, 0));

    assert!(collider_1.is_colliding(&Collider::Rectangle(collider_2)));

    collider_1.snap_z(&Collider::Rectangle(collider_2));

    assert_eq!(collider_1, boxed(3000, 6000, 1000, Vec3::new(3500, 4000, 0)));
}

#[test]
fn test_rectangle_plane_collision() {
    let rectangle_collider = boxed(5000, 5000, 5000, Vec3::new(0, 2500, 0));

    let plane_collider =
        StationaryPlaneCollider::new(10000, 10000, Vec3::zero(), Quat::identity()).unwrap();

    assert!(rectangle_collider.is_colliding(&Collider::Plane(plane_collider)));

    let rectangle_collider = boxed(5000, 5000, 5000, Vec3::new(0, 6000, 0));

    assert!(!rectangle_collider.is_colliding(&Collider::Plane(plane_collider)));
}

#[test]
fn test_plane_straddle_inside_quad() {
    // A box centred on the plane straddles it and its corners project
    // inside the plane's quadrilateral.
    let rect = boxed(5000, 5000, 5000, Vec3::zero());
    let plane =
        StationaryPlaneCollider::new(10000, 10000, Vec3::zero(), Quat::identity()).unwrap();
    assert!(rect.is_colliding(&Collider::Plane(plane)));
}

#[test]
fn test_plane_straddle_outside_quad() {
    // A box that straddles the plane's carrier far beyond its finite
    // extent does not collide.
    let rect = boxed(5000, 5000, 5000, Vec3::new(20000, 0, 0));
    let plane =
        StationaryPlaneCollider::new(10000, 10000, Vec3::zero(), Quat::identity()).unwrap();
    assert!(!rect.is_colliding(&Collider::Plane(plane)));
}

#[test]
fn test_box_box_symmetry() {
    // Partial overlap on every axis: the test agrees in both
    // directions.
    let a = boxed(5000, 5000, 5000, Vec3::zero());
    let b = boxed(5000, 5000, 5000, Vec3::new(2000, 1000, 500));
    assert!(a.is_colliding(&Collider::Rectangle(b)));
    assert!(b.is_colliding(&Collider::Rectangle(a)));

    let far = boxed(5000, 5000, 5000, Vec3::new(20000, 0, 0));
    assert!(!a.is_colliding(&Collider::Rectangle(far)));
    assert!(!far.is_colliding(&Collider::Rectangle(a)));

    // A small box nested inside a large one collides seen from
    // either side.
    let big = boxed(10000, 10000, 10000, Vec3::new(5000, 5000, 5000));
    let small = boxed(2000, 10000, 10000, Vec3::new(3000, 5000, 5000));
    assert!(big.is_colliding(&Collider::Rectangle(small)));
    assert!(small.is_colliding(&Collider::Rectangle(big)));

    // Exactly touching faces collide from either side.
    let touch = boxed(5000, 5000, 5000, Vec3::new(5000, 0, 0));
    assert!(a.is_colliding(&Collider::Rectangle(touch)));
    assert!(touch.is_colliding(&Collider::Rectangle(a)));
}

#[test]
fn test_contains_is_interval_intersection() {
    // A range that strictly contains the box's interval intersects
    // it.
    let a = boxed(10000, 10000, 10000, Vec3::new(5000, 5000, 5000));
    assert!(a.contains_x(&AxisRange { start: -5000, end: 15000 }));
    // A range sharing only the box's upper bound does not (half-open
    // intervals).
    assert!(!a.contains_x(&AxisRange { start: 10000, end: 20000 }));
    // An overlapping range does.
    assert!(a.contains_x(&AxisRange { start: 9000, end: 20000 }));
}

#[test]
fn test_snap_resolves_and_is_idempotent() {
    // A box above another snaps upward out of contact; along the
    // snapped axis no collision remains, and a second snap moves
    // nothing.
    let mut a = boxed(5000, 5000, 5000, Vec3::new(0, 3000, 0));
    let b = boxed(5000, 5000, 5000, Vec3::zero());
    assert!(a.is_colliding(&Collider::Rectangle(b)));

    a.snap_y(&Collider::Rectangle(b));
    assert_eq!(a.origin, Vec3::new(0, 5000, 0));
    assert!(!a.is_colliding_y(&Collider::Rectangle(b)));

    let snapped = a;
    a.snap_y(&Collider::Rectangle(b));
    assert_eq!(a, snapped);
}

#[test]
fn test_snap_resolves_from_the_lesser_side() {
    // A box below another snaps downward out of contact: the
    // touching faces no longer count as a Y collision.
    let mut a = boxed(2000, 2000, 2000, Vec3::new(0, 2000, 0));
    let b = boxed(4000, 4000, 4000, Vec3::new(0, 3000, 0));
    assert!(a.is_colliding_y(&Collider::Rectangle(b)));

    a.snap_y(&Collider::Rectangle(b));
    assert_eq!(a.origin, Vec3::new(0, 0, 0));
    assert!(!a.is_colliding_y(&Collider::Rectangle(b)));

    let snapped = a;
    a.snap_y(&Collider::Rectangle(b));
    assert_eq!(a, snapped);
}

#[test]
fn test_plane_is_immutable() {
    let plane =
        StationaryPlaneCollider::new(10000, 10000, Vec3::new(1000, 2000, 3000), Quat::identity())
            .unwrap();
    let mut moved = plane;
    let other = Collider::Rectangle(boxed(5000, 5000, 5000, Vec3::zero()));

    moved.snap(&other);
    moved.snap_x(&other);
    moved.snap_y(&other);
    moved.snap_z(&other);
    moved.set_origin(&Vec3::new(9000, 9000, 9000));

    assert_eq!(moved, plane);
    assert_eq!(*moved.origin(), Vec3::new(1000, 2000, 3000));
    assert!(!plane.is_colliding(&other));
    assert!(!plane.is_colliding_x(&other));
    assert_eq!(plane.height(), 0);
}

#[test]
fn test_plane_rejects_degenerate_orientation() {
    let r = StationaryPlaneCollider::new(10000, 10000, Vec3::zero(), Quat::new(0, 0, 0, 0));
    assert_eq!(r, Err(GeometryError::DegenerateOrientation));
}
