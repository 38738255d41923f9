//! Collision geometry: an axis-aligned movable box, a stationary
//! oriented finite plane, and the overlap, containment and snap
//! operations between them.
//!
//! The per-axis containment tests ask whether two half-open
//! fixed-point intervals intersect; the general box-against-box test
//! uses closed spans instead, so that exactly touching faces count
//! as colliding. The box derives its eight corner vertices from its
//! extents and centre whenever they are needed, so they can never
//! disagree with a mutated origin.

use vstd::prelude::*;

use crate::math::FX_MAX;
use crate::math::SCALE;
use crate::math::cl;
use crate::math::fx_half;
use crate::math::fx_wf;
use crate::math::half_s;
use crate::math::lemma_mul_bound;
use crate::quat::Quat;
use crate::quat::q_rotate_s;
use crate::quat::q_wf;
use crate::vec3::Vec3;
use crate::vec3::v3_plus_s;
use crate::vec3::v3_wf;

verus! {

/// Largest magnitude a derived box vertex can have: a well-formed
/// origin plus half of a well-formed extent.
pub const VTX_MAX: i64 = 1_500_000_000_000;

/// A half-open interval `[start, end)` along one world axis.
#[derive(Clone, Copy, PartialEq, Eq, Structural, Debug)]
pub struct AxisRange {
    pub start: i64,
    pub end: i64,
}

/// Rejection raised when a plane collider cannot derive its geometry.
#[derive(Clone, Copy, PartialEq, Eq, Structural, Debug)]
pub enum GeometryError {
    /// The orientation quaternion has squared norm zero.
    DegenerateOrientation,
}

/// Membership in a half-open interval.
pub open spec fn in_range_s(lo: int, hi: int, x: int) -> bool {
    lo <= x && x < hi
}

/// The box axis's half-open interval `[c - e/2, c + e/2)` intersects
/// the half-open interval `[start, end)`.
pub open spec fn axis_contains_s(c: int, e: int, start: int, end: int) -> bool {
    let h = half_s(e);
    max_s(c - h, start) < min_s(c + h, end)
}

/// The closed spans of two box axes meet: exactly touching faces
/// count as overlapping.
pub open spec fn axis_touch_s(ac: int, ae: int, bc: int, be: int) -> bool {
    let ah = half_s(ae);
    let bh = half_s(be);
    max_s(ac - ah, bc - bh) <= min_s(ac + ah, bc + bh)
}

/// An axis-aligned box: full extents along each axis and a centre.
/// Its eight corner vertices are derived, never stored.
#[derive(Clone, Copy, PartialEq, Eq, Structural, Debug)]
pub struct RectangleCollider {
    pub width: i64,
    pub height: i64,
    pub length: i64,
    pub origin: Vec3,
}

/// The eight corners of a box: centre plus or minus half of each
/// extent, exact (the sums stay far below the scalar clamping bound).
pub open spec fn rect_vertices_s(w: int, h: int, l: int, o: Vec3) -> Seq<Vec3> {
    let w2 = half_s(w);
    let h2 = half_s(h);
    let l2 = half_s(l);
    seq![
        Vec3 { x: (o.x + w2) as i64, y: (o.y + h2) as i64, z: (o.z + l2) as i64 },
        Vec3 { x: (o.x + w2) as i64, y: (o.y + h2) as i64, z: (o.z - l2) as i64 },
        Vec3 { x: (o.x - w2) as i64, y: (o.y + h2) as i64, z: (o.z + l2) as i64 },
        Vec3 { x: (o.x - w2) as i64, y: (o.y + h2) as i64, z: (o.z - l2) as i64 },
        Vec3 { x: (o.x + w2) as i64, y: (o.y - h2) as i64, z: (o.z + l2) as i64 },
        Vec3 { x: (o.x + w2) as i64, y: (o.y - h2) as i64, z: (o.z - l2) as i64 },
        Vec3 { x: (o.x - w2) as i64, y: (o.y - h2) as i64, z: (o.z + l2) as i64 },
        Vec3 { x: (o.x - w2) as i64, y: (o.y - h2) as i64, z: (o.z - l2) as i64 },
    ]
}

impl RectangleCollider {
    /// Extents are nonnegative and, with the centre, in the scalar
    /// range.
    pub open spec fn wf(self) -> bool {
        &&& 0 <= self.width <= FX_MAX
        &&& 0 <= self.height <= FX_MAX
        &&& 0 <= self.length <= FX_MAX
        &&& v3_wf(self.origin)
    }

    /// The derived corners of this box.
    pub open spec fn vertices_s(self) -> Seq<Vec3> {
        rect_vertices_s(self.width as int, self.height as int, self.length as int, self.origin)
    }
}

/// A stationary finite plane: a rectangle of the given extents rotated
/// by a fixed orientation around its centre. Its four corner points
/// and its rotated normal are derived once at construction and never
/// change.
#[derive(Clone, Copy, PartialEq, Debug)]
pub struct StationaryPlaneCollider {
    pub width: i64,
    pub length: i64,
    pub origin: Vec3,
    pub plane_points: [Vec3; 4],
    pub local_normal: Vec3,
}

impl StationaryPlaneCollider {
    /// Extents are nonnegative and every stored quantity is in the
    /// scalar range.
    pub open spec fn wf(self) -> bool {
        &&& 0 <= self.width <= FX_MAX
        &&& 0 <= self.length <= FX_MAX
        &&& v3_wf(self.origin)
        &&& forall|i: int| 0 <= i < 4 ==> v3_wf(#[trigger] self.plane_points@[i])
        &&& v3_wf(self.local_normal)
    }
}

/// The two collider shapes, as one closed type.
#[derive(Clone, Copy, PartialEq, Debug)]
pub enum Collider {
    Rectangle(RectangleCollider),
    Plane(StationaryPlaneCollider),
}

impl Collider {
    /// Shape-independent well-formedness.
    pub open spec fn wf(self) -> bool {
        match self {
            Collider::Rectangle(r) => r.wf(),
            Collider::Plane(p) => p.wf(),
        }
    }
}

/// The centre of either collider.
pub open spec fn c_origin(c: Collider) -> Vec3 {
    match c {
        Collider::Rectangle(r) => r.origin,
        Collider::Plane(p) => p.origin,
    }
}

/// The extent of either collider along the X axis.
pub open spec fn c_width(c: Collider) -> int {
    match c {
        Collider::Rectangle(r) => r.width as int,
        Collider::Plane(p) => p.width as int,
    }
}

/// The extent of either collider along the Y axis; a plane is flat.
pub open spec fn c_height(c: Collider) -> int {
    match c {
        Collider::Rectangle(r) => r.height as int,
        Collider::Plane(_) => 0,
    }
}

/// The extent of either collider along the Z axis.
pub open spec fn c_length(c: Collider) -> int {
    match c {
        Collider::Rectangle(r) => r.length as int,
        Collider::Plane(p) => p.length as int,
    }
}

/// Smaller of two values.
pub open spec fn min_s(a: int, b: int) -> int {
    if a < b {
        a
    } else {
        b
    }
}

/// Larger of two values.
pub open spec fn max_s(a: int, b: int) -> int {
    if a > b {
        a
    } else {
        b
    }
}

/// Smallest of four values.
pub open spec fn min4_s(a: int, b: int, c: int, d: int) -> int {
    min_s(min_s(min_s(a, b), c), d)
}

/// Largest of four values.
pub open spec fn max4_s(a: int, b: int, c: int, d: int) -> int {
    max_s(max_s(max_s(a, b), c), d)
}

/// The plane's containment test along one axis: the half-open
/// interval spanned by its corner projections intersects the
/// argument interval; a collapsed (empty) span instead asks whether
/// the argument interval contains its position.
pub open spec fn span_contains_s(p0: int, p1: int, p2: int, p3: int, start: int, end: int) -> bool {
    let lo = min4_s(p0, p1, p2, p3);
    let hi = max4_s(p0, p1, p2, p3);
    if lo >= hi {
        in_range_s(start, end, lo)
    } else {
        max_s(lo, start) < min_s(hi, end)
    }
}

/// Plane containment along X.
pub open spec fn plane_contains_x_s(p: StationaryPlaneCollider, start: int, end: int) -> bool {
    span_contains_s(
        p.plane_points@[0].x as int,
        p.plane_points@[1].x as int,
        p.plane_points@[2].x as int,
        p.plane_points@[3].x as int,
        start,
        end,
    )
}

/// Plane containment along Y.
pub open spec fn plane_contains_y_s(p: StationaryPlaneCollider, start: int, end: int) -> bool {
    span_contains_s(
        p.plane_points@[0].y as int,
        p.plane_points@[1].y as int,
        p.plane_points@[2].y as int,
        p.plane_points@[3].y as int,
        start,
        end,
    )
}

/// Plane containment along Z.
pub open spec fn plane_contains_z_s(p: StationaryPlaneCollider, start: int, end: int) -> bool {
    span_contains_s(
        p.plane_points@[0].z as int,
        p.plane_points@[1].z as int,
        p.plane_points@[2].z as int,
        p.plane_points@[3].z as int,
        start,
        end,
    )
}

/// Containment along X for either collider shape.
pub open spec fn c_contains_x(c: Collider, start: int, end: int) -> bool {
    match c {
        Collider::Rectangle(r) => axis_contains_s(r.origin.x as int, r.width as int, start, end),
        Collider::Plane(p) => plane_contains_x_s(p, start, end),
    }
}

/// Containment along Y for either collider shape.
pub open spec fn c_contains_y(c: Collider, start: int, end: int) -> bool {
    match c {
        Collider::Rectangle(r) => axis_contains_s(r.origin.y as int, r.height as int, start, end),
        Collider::Plane(p) => plane_contains_y_s(p, start, end),
    }
}

/// Containment along Z for either collider shape.
pub open spec fn c_contains_z(c: Collider, start: int, end: int) -> bool {
    match c {
        Collider::Rectangle(r) => axis_contains_s(r.origin.z as int, r.length as int, start, end),
        Collider::Plane(p) => plane_contains_z_s(p, start, end),
    }
}

/// The box's directional collision test: its own span along the axis,
/// handed to the other collider's containment test.
pub open spec fn rect_colliding_x_s(a: RectangleCollider, other: Collider) -> bool {
    let h = half_s(a.width as int);
    c_contains_x(other, a.origin.x - h, a.origin.x + h)
}

/// Directional collision along Y.
pub open spec fn rect_colliding_y_s(a: RectangleCollider, other: Collider) -> bool {
    let h = half_s(a.height as int);
    c_contains_y(other, a.origin.y - h, a.origin.y + h)
}

/// Directional collision along Z.
pub open spec fn rect_colliding_z_s(a: RectangleCollider, other: Collider) -> bool {
    let h = half_s(a.length as int);
    c_contains_z(other, a.origin.z - h, a.origin.z + h)
}

/// Two boxes collide exactly when their closed spans meet on all
/// three axes; the predicate is symmetric in the two boxes.
pub open spec fn rect_rect_colliding_s(a: RectangleCollider, b: RectangleCollider) -> bool {
    &&& axis_touch_s(a.origin.x as int, a.width as int, b.origin.x as int, b.width as int)
    &&& axis_touch_s(a.origin.y as int, a.height as int, b.origin.y as int, b.height as int)
    &&& axis_touch_s(a.origin.z as int, a.length as int, b.origin.z as int, b.length as int)
}

/// Signed distance (scaled by the squared normal length) from a point
/// to the plane: the dot product of the offset from the plane origin
/// with the stored normal, exact.
pub open spec fn plane_dist_s(p: StationaryPlaneCollider, v: Vec3) -> int {
    p.local_normal.x * (v.x - p.origin.x) + p.local_normal.y * (v.y - p.origin.y)
        + p.local_normal.z * (v.z - p.origin.z)
}

/// The box meets the plane's infinite carrier: the eight signed
/// corner distances do not all lie strictly on one side, so the box
/// crosses or exactly touches the plane.
pub open spec fn rect_meets_plane_s(a: RectangleCollider, p: StationaryPlaneCollider) -> bool {
    let vs = a.vertices_s();
    let d0 = plane_dist_s(p, vs[0]);
    let d1 = plane_dist_s(p, vs[1]);
    let d2 = plane_dist_s(p, vs[2]);
    let d3 = plane_dist_s(p, vs[3]);
    let d4 = plane_dist_s(p, vs[4]);
    let d5 = plane_dist_s(p, vs[5]);
    let d6 = plane_dist_s(p, vs[6]);
    let d7 = plane_dist_s(p, vs[7]);
    let some_below = d0 <= 0 || d1 <= 0 || d2 <= 0 || d3 <= 0 || d4 <= 0 || d5 <= 0 || d6 <= 0
        || d7 <= 0;
    let some_above = d0 >= 0 || d1 >= 0 || d2 >= 0 || d3 >= 0 || d4 >= 0 || d5 >= 0 || d6 >= 0
        || d7 >= 0;
    some_below && some_above
}

/// Orientation of a vertex against one boundary edge of the plane:
/// the sign of the normal's dot product with the cross product of the
/// two vectors from the vertex to the edge's endpoints. Projecting
/// the vertex onto the plane along the normal would not change this
/// sign, because the cross product's normal component is unchanged by
/// translating the vertex along the normal.
pub open spec fn tri_sign_s(p: StationaryPlaneCollider, k: int, v: Vec3) -> int {
    let pa = p.plane_points@[k];
    let pb = p.plane_points@[if k == 3 {
        0
    } else {
        k + 1
    }];
    let ax = pa.x - v.x;
    let ay = pa.y - v.y;
    let az = pa.z - v.z;
    let bx = pb.x - v.x;
    let by = pb.y - v.y;
    let bz = pb.z - v.z;
    let cx = ay * bz - az * by;
    let cy = az * bx - ax * bz;
    let cz = ax * by - ay * bx;
    let d = p.local_normal.x * cx + p.local_normal.y * cy + p.local_normal.z * cz;
    if d < 0 {
        -1
    } else {
        1
    }
}

/// A vertex lies over the plane's finite quadrilateral exactly when
/// all four edge orientations agree.
pub open spec fn vertex_over_quad_s(p: StationaryPlaneCollider, v: Vec3) -> bool {
    let s0 = tri_sign_s(p, 0, v);
    let s1 = tri_sign_s(p, 1, v);
    let s2 = tri_sign_s(p, 2, v);
    let s3 = tri_sign_s(p, 3, v);
    s0 == s1 && s1 == s2 && s2 == s3
}

/// The box collides with the plane: it crosses or touches the
/// plane's carrier, and at least one corner sits over the finite
/// quadrilateral.
pub open spec fn rect_plane_colliding_s(a: RectangleCollider, p: StationaryPlaneCollider) -> bool {
    rect_meets_plane_s(a, p) && exists|i: int|
        0 <= i < 8 && vertex_over_quad_s(p, a.vertices_s()[i])
}

/// The box's general collision test: carrier contact plus the
/// point-in-quadrilateral test against a plane, closed span overlap
/// on all three axes against another box.
pub open spec fn rect_is_colliding_s(a: RectangleCollider, other: Collider) -> bool {
    match other {
        Collider::Plane(p) => rect_plane_colliding_s(a, p),
        Collider::Rectangle(b) => rect_rect_colliding_s(a, b),
    }
}

/// Snapped centre coordinate along one axis: push just out of contact
/// toward the side the centre already lies on; a tie applies no
/// correction. The result is clamped into the scalar range.
pub open spec fn snap_axis_s(sc: int, se: int, oc: int, oe: int) -> int {
    if sc < oc {
        cl(oc - half_s(oe) - half_s(se))
    } else if sc > oc {
        cl(oc + half_s(oe) + half_s(se))
    } else {
        sc
    }
}

/// The box after snapping along X against the other collider.
pub open spec fn rect_snap_x_s(a: RectangleCollider, other: Collider) -> RectangleCollider {
    RectangleCollider {
        origin: Vec3 {
            x: snap_axis_s(
                a.origin.x as int,
                a.width as int,
                c_origin(other).x as int,
                c_width(other),
            ) as i64,
            ..a.origin
        },
        ..a
    }
}

/// The box after snapping along Y against the other collider.
pub open spec fn rect_snap_y_s(a: RectangleCollider, other: Collider) -> RectangleCollider {
    RectangleCollider {
        origin: Vec3 {
            y: snap_axis_s(
                a.origin.y as int,
                a.height as int,
                c_origin(other).y as int,
                c_height(other),
            ) as i64,
            ..a.origin
        },
        ..a
    }
}

/// The box after snapping along Z against the other collider.
pub open spec fn rect_snap_z_s(a: RectangleCollider, other: Collider) -> RectangleCollider {
    RectangleCollider {
        origin: Vec3 {
            z: snap_axis_s(
                a.origin.z as int,
                a.length as int,
                c_origin(other).z as int,
                c_length(other),
            ) as i64,
            ..a.origin
        },
        ..a
    }
}

/// The box after snapping along all three axes.
pub open spec fn rect_snap_s(a: RectangleCollider, other: Collider) -> RectangleCollider {
    rect_snap_z_s(rect_snap_y_s(rect_snap_x_s(a, other), other), other)
}

/// Halving never grows a magnitude.
pub proof fn lemma_half_bound(a: int, b: int)
    requires
        -b <= a <= b,
        0 <= b,
    ensures
        -b <= half_s(a) <= b,
{
}

/// The corners of a well-formed box stay within the vertex bound.
pub proof fn lemma_vertices_bounded(a: RectangleCollider)
    requires
        a.wf(),
    ensures
        forall|i: int|
            0 <= i < 8 ==> {
                let v = #[trigger] a.vertices_s()[i];
                -VTX_MAX <= v.x <= VTX_MAX && -VTX_MAX <= v.y <= VTX_MAX && -VTX_MAX <= v.z
                    <= VTX_MAX
            },
{
    lemma_half_bound(a.width as int, FX_MAX as int);
    lemma_half_bound(a.height as int, FX_MAX as int);
    lemma_half_bound(a.length as int, FX_MAX as int);
}

/// One exact signed corner distance, computed in 128-bit arithmetic.
fn plane_dist_e(p: &StationaryPlaneCollider, v: &Vec3) -> (r: i128)
    requires
        p.wf(),
        -VTX_MAX <= v.x <= VTX_MAX,
        -VTX_MAX <= v.y <= VTX_MAX,
        -VTX_MAX <= v.z <= VTX_MAX,
    ensures
        r == plane_dist_s(*p, *v),
        -14_000_000_000_000_000_000_000_000 <= r <= 14_000_000_000_000_000_000_000_000,
{
    let dx: i128 = v.x as i128 - p.origin.x as i128;
    let dy: i128 = v.y as i128 - p.origin.y as i128;
    let dz: i128 = v.z as i128 - p.origin.z as i128;
    proof {
        lemma_mul_bound(p.local_normal.x as int, dx as int, FX_MAX as int, 3 * VTX_MAX as int);
        lemma_mul_bound(p.local_normal.y as int, dy as int, FX_MAX as int, 3 * VTX_MAX as int);
        lemma_mul_bound(p.local_normal.z as int, dz as int, FX_MAX as int, 3 * VTX_MAX as int);
    }
    (p.local_normal.x as i128) * dx + (p.local_normal.y as i128) * dy + (p.local_normal.z as i128)
        * dz
}

/// Edge-orientation sign of one vertex against one plane edge.
fn tri_sign_e(p: &StationaryPlaneCollider, k: usize, v: &Vec3) -> (r: i64)
    requires
        p.wf(),
        k < 4,
        -VTX_MAX <= v.x <= VTX_MAX,
        -VTX_MAX <= v.y <= VTX_MAX,
        -VTX_MAX <= v.z <= VTX_MAX,
    ensures
        r == tri_sign_s(*p, k as int, *v),
{
    let pa = p.plane_points[k];
    let pb = p.plane_points[if k == 3 {
        0
    } else {
        k + 1
    }];
    let ax: i128 = pa.x as i128 - v.x as i128;
    let ay: i128 = pa.y as i128 - v.y as i128;
    let az: i128 = pa.z as i128 - v.z as i128;
    let bx: i128 = pb.x as i128 - v.x as i128;
    let by: i128 = pb.y as i128 - v.y as i128;
    let bz: i128 = pb.z as i128 - v.z as i128;
    proof {
        let db = 3_000_000_000_000int;
        lemma_mul_bound(ay as int, bz as int, db, db);
        lemma_mul_bound(az as int, by as int, db, db);
        lemma_mul_bound(az as int, bx as int, db, db);
        lemma_mul_bound(ax as int, bz as int, db, db);
        lemma_mul_bound(ax as int, by as int, db, db);
        lemma_mul_bound(ay as int, bx as int, db, db);
    }
    let cx: i128 = ay * bz - az * by;
    let cy: i128 = az * bx - ax * bz;
    let cz: i128 = ax * by - ay * bx;
    proof {
        let cb = 18_000_000_000_000_000_000_000_000int;
        lemma_mul_bound(p.local_normal.x as int, cx as int, FX_MAX as int, cb);
        lemma_mul_bound(p.local_normal.y as int, cy as int, FX_MAX as int, cb);
        lemma_mul_bound(p.local_normal.z as int, cz as int, FX_MAX as int, cb);
    }
    let d: i128 = (p.local_normal.x as i128) * cx + (p.local_normal.y as i128) * cy
        + (p.local_normal.z as i128) * cz;
    if d < 0 {
        -1
    } else {
        1
    }
}

/// Whether one corner sits over the plane's finite quadrilateral.
fn vertex_over_quad_e(p: &StationaryPlaneCollider, v: &Vec3) -> (r: bool)
    requires
        p.wf(),
        -VTX_MAX <= v.x <= VTX_MAX,
        -VTX_MAX <= v.y <= VTX_MAX,
        -VTX_MAX <= v.z <= VTX_MAX,
    ensures
        r == vertex_over_quad_s(*p, *v),
{
    let s0 = tri_sign_e(p, 0, v);
    let s1 = tri_sign_e(p, 1, v);
    let s2 = tri_sign_e(p, 2, v);
    let s3 = tri_sign_e(p, 3, v);
    s0 == s1 && s1 == s2 && s2 == s3
}

/// Whether the box crosses or exactly touches the plane's carrier.
#[verifier::rlimit(100)]
fn meets_plane_e(a: &RectangleCollider, p: &StationaryPlaneCollider) -> (r: bool)
    requires
        a.wf(),
        p.wf(),
    ensures
        r == rect_meets_plane_s(*a, *p),
{
    proof {
        lemma_vertices_bounded(*a);
    }
    let vs = RectangleCollider::compute_vertices(a.width, a.height, a.length, &a.origin);
    let d0 = plane_dist_e(p, &vs[0]);
    let d1 = plane_dist_e(p, &vs[1]);
    let d2 = plane_dist_e(p, &vs[2]);
    let d3 = plane_dist_e(p, &vs[3]);
    let d4 = plane_dist_e(p, &vs[4]);
    let d5 = plane_dist_e(p, &vs[5]);
    let d6 = plane_dist_e(p, &vs[6]);
    let d7 = plane_dist_e(p, &vs[7]);
    proof {
        assert(d0 == plane_dist_s(*p, a.vertices_s()[0]));
        assert(d1 == plane_dist_s(*p, a.vertices_s()[1]));
        assert(d2 == plane_dist_s(*p, a.vertices_s()[2]));
        assert(d3 == plane_dist_s(*p, a.vertices_s()[3]));
        assert(d4 == plane_dist_s(*p, a.vertices_s()[4]));
        assert(d5 == plane_dist_s(*p, a.vertices_s()[5]));
        assert(d6 == plane_dist_s(*p, a.vertices_s()[6]));
        assert(d7 == plane_dist_s(*p, a.vertices_s()[7]));
    }
    let some_below = d0 <= 0 || d1 <= 0 || d2 <= 0 || d3 <= 0 || d4 <= 0 || d5 <= 0 || d6 <= 0
        || d7 <= 0;
    let some_above = d0 >= 0 || d1 >= 0 || d2 >= 0 || d3 >= 0 || d4 >= 0 || d5 >= 0 || d6 >= 0
        || d7 >= 0;
    some_below && some_above
}

/// Closed-span overlap of two box axes, executable.
fn axis_touch_e(ac: i64, ae: i64, bc: i64, be: i64) -> (r: bool)
    requires
        fx_wf(ac as int),
        fx_wf(ae as int),
        fx_wf(bc as int),
        fx_wf(be as int),
    ensures
        r == axis_touch_s(ac as int, ae as int, bc as int, be as int),
{
    let ah = fx_half(ae);
    let bh = fx_half(be);
    let a1 = ac - ah;
    let a2 = ac + ah;
    let b1 = bc - bh;
    let b2 = bc + bh;
    let lo = if a1 > b1 {
        a1
    } else {
        b1
    };
    let hi = if a2 < b2 {
        a2
    } else {
        b2
    };
    lo <= hi
}

impl RectangleCollider {
    /// The eight corner vertices of a box with the given extents and
    /// centre.
    pub fn compute_vertices(width: i64, height: i64, length: i64, origin: &Vec3) -> (r: [Vec3; 8])
        requires
            fx_wf(width as int),
            fx_wf(height as int),
            fx_wf(length as int),
            v3_wf(*origin),
        ensures
            r@ == rect_vertices_s(width as int, height as int, length as int, *origin),
    {
        let w2 = fx_half(width);
        let h2 = fx_half(height);
        let l2 = fx_half(length);
        let r = [
            Vec3 { x: origin.x + w2, y: origin.y + h2, z: origin.z + l2 },
            Vec3 { x: origin.x + w2, y: origin.y + h2, z: origin.z - l2 },
            Vec3 { x: origin.x - w2, y: origin.y + h2, z: origin.z + l2 },
            Vec3 { x: origin.x - w2, y: origin.y + h2, z: origin.z - l2 },
            Vec3 { x: origin.x + w2, y: origin.y - h2, z: origin.z + l2 },
            Vec3 { x: origin.x + w2, y: origin.y - h2, z: origin.z - l2 },
            Vec3 { x: origin.x - w2, y: origin.y - h2, z: origin.z + l2 },
            Vec3 { x: origin.x - w2, y: origin.y - h2, z: origin.z - l2 },
        ];
        proof {
            assert(r@ =~= rect_vertices_s(width as int, height as int, length as int, *origin));
        }
        r
    }

    /// A box with the given full extents centred at `origin`.
    pub fn new(width: i64, height: i64, length: i64, origin: Vec3) -> (r: RectangleCollider)
        requires
            0 <= width <= FX_MAX,
            0 <= height <= FX_MAX,
            0 <= length <= FX_MAX,
            v3_wf(origin),
        ensures
            r == (RectangleCollider { width, height, length, origin }),
            r.wf(),
    {
        RectangleCollider { width, height, length, origin }
    }

    /// Whether the box collides with the plane: it crosses or
    /// touches the plane's carrier and some corner sits over the
    /// finite quadrilateral.
    pub fn plane_special_hit(&self, p: &StationaryPlaneCollider) -> (r: bool)
        requires
            self.wf(),
            p.wf(),
        ensures
            r == rect_plane_colliding_s(*self, *p),
    {
        proof {
            lemma_vertices_bounded(*self);
        }
        let vs = Self::compute_vertices(self.width, self.height, self.length, &self.origin);
        if !meets_plane_e(self, p) {
            return false;
        }
        let mut i: usize = 0;
        while i < 8
            invariant
                self.wf(),
                p.wf(),
                i <= 8,
                vs@ == self.vertices_s(),
                rect_meets_plane_s(*self, *p),
                forall|j: int| 0 <= j < i ==> !vertex_over_quad_s(*p, self.vertices_s()[j]),
                forall|j: int|
                    0 <= j < 8 ==> {
                        let v = #[trigger] vs@[j];
                        -VTX_MAX <= v.x <= VTX_MAX && -VTX_MAX <= v.y <= VTX_MAX && -VTX_MAX <= v.z
                            <= VTX_MAX
                    },
            decreases 8 - i,
        {
            if vertex_over_quad_e(p, &vs[i]) {
                assert(vertex_over_quad_s(*p, self.vertices_s()[i as int]));
                return true;
            }
            i += 1;
        }
        false
    }

    /// General collision test against either collider shape.
    pub fn is_colliding(&self, other: &Collider) -> (r: bool)
        requires
            self.wf(),
            other.wf(),
        ensures
            r == rect_is_colliding_s(*self, *other),
    {
        match other {
            Collider::Plane(p) => self.plane_special_hit(p),
            Collider::Rectangle(b) => {
                let x = axis_touch_e(self.origin.x, self.width, b.origin.x, b.width);
                let y = axis_touch_e(self.origin.y, self.height, b.origin.y, b.height);
                let z = axis_touch_e(self.origin.z, self.length, b.origin.z, b.length);
                x && y && z
            },
        }
    }

    /// Directional collision along X: the other collider is asked
    /// whether it contains this box's X span.
    pub fn is_colliding_x(&self, other: &Collider) -> (r: bool)
        requires
            self.wf(),
            other.wf(),
        ensures
            r == rect_colliding_x_s(*self, *other),
    {
        let w2 = fx_half(self.width);
        other.contains_x(&AxisRange { start: self.origin.x - w2, end: self.origin.x + w2 })
    }

    /// Directional collision along Y.
    pub fn is_colliding_y(&self, other: &Collider) -> (r: bool)
        requires
            self.wf(),
            other.wf(),
        ensures
            r == rect_colliding_y_s(*self, *other),
    {
        let h2 = fx_half(self.height);
        other.contains_y(&AxisRange { start: self.origin.y - h2, end: self.origin.y + h2 })
    }

    /// Directional collision along Z.
    pub fn is_colliding_z(&self, other: &Collider) -> (r: bool)
        requires
            self.wf(),
            other.wf(),
        ensures
            r == rect_colliding_z_s(*self, *other),
    {
        let l2 = fx_half(self.length);
        other.contains_z(&AxisRange { start: self.origin.z - l2, end: self.origin.z + l2 })
    }

    /// Whether this box's half-open X interval intersects the given
    /// interval.
    pub fn contains_x(&self, range: &AxisRange) -> (r: bool)
        requires
            self.wf(),
        ensures
            r == axis_contains_s(
                self.origin.x as int,
                self.width as int,
                range.start as int,
                range.end as int,
            ),
    {
        let w2 = fx_half(self.width);
        let lo = self.origin.x - w2;
        let hi = self.origin.x + w2;
        let s = if lo > range.start {
            lo
        } else {
            range.start
        };
        let e = if hi < range.end {
            hi
        } else {
            range.end
        };
        s < e
    }

    /// Interval intersection along Y.
    pub fn contains_y(&self, range: &AxisRange) -> (r: bool)
        requires
            self.wf(),
        ensures
            r == axis_contains_s(
                self.origin.y as int,
                self.height as int,
                range.start as int,
                range.end as int,
            ),
    {
        let h2 = fx_half(self.height);
        let lo = self.origin.y - h2;
        let hi = self.origin.y + h2;
        let s = if lo > range.start {
            lo
        } else {
            range.start
        };
        let e = if hi < range.end {
            hi
        } else {
            range.end
        };
        s < e
    }

    /// Interval intersection along Z.
    pub fn contains_z(&self, range: &AxisRange) -> (r: bool)
        requires
            self.wf(),
        ensures
            r == axis_contains_s(
                self.origin.z as int,
                self.length as int,
                range.start as int,
                range.end as int,
            ),
    {
        let l2 = fx_half(self.length);
        let lo = self.origin.z - l2;
        let hi = self.origin.z + l2;
        let s = if lo > range.start {
            lo
        } else {
            range.start
        };
        let e = if hi < range.end {
            hi
        } else {
            range.end
        };
        s < e
    }

    /// Snap along all three axes at once.
    pub fn snap(&mut self, other: &Collider)
        requires
            old(self).wf(),
            other.wf(),
        ensures
            *final(self) == rect_snap_s(*old(self), *other),
            final(self).wf(),
    {
        self.snap_x(other);
        self.snap_y(other);
        self.snap_z(other);
    }

    /// Snap along X: move the centre just out of contact on the side
    /// it already lies on; a tie moves nothing.
    pub fn snap_x(&mut self, other: &Collider)
        requires
            old(self).wf(),
            other.wf(),
        ensures
            *final(self) == rect_snap_x_s(*old(self), *other),
            final(self).wf(),
    {
        let oc = other.origin();
        let self_w2 = fx_half(self.width);
        let other_w2 = fx_half(other.width());
        if self.origin.x < oc.x {
            self.origin.x = crate::math::fx_clamp(oc.x - other_w2 - self_w2);
        } else if self.origin.x > oc.x {
            self.origin.x = crate::math::fx_clamp(oc.x + other_w2 + self_w2);
        }
    }

    /// Snap along Y.
    pub fn snap_y(&mut self, other: &Collider)
        requires
            old(self).wf(),
            other.wf(),
        ensures
            *final(self) == rect_snap_y_s(*old(self), *other),
            final(self).wf(),
    {
        let oc = other.origin();
        let self_h2 = fx_half(self.height);
        let other_h2 = fx_half(other.height());
        if self.origin.y < oc.y {
            self.origin.y = crate::math::fx_clamp(oc.y - other_h2 - self_h2);
        } else if self.origin.y > oc.y {
            self.origin.y = crate::math::fx_clamp(oc.y + other_h2 + self_h2);
        }
    }

    /// Snap along Z.
    pub fn snap_z(&mut self, other: &Collider)
        requires
            old(self).wf(),
            other.wf(),
        ensures
            *final(self) == rect_snap_z_s(*old(self), *other),
            final(self).wf(),
    {
        let oc = other.origin();
        let self_l2 = fx_half(self.length);
        let other_l2 = fx_half(other.length());
        if self.origin.z < oc.z {
            self.origin.z = crate::math::fx_clamp(oc.z - other_l2 - self_l2);
        } else if self.origin.z > oc.z {
            self.origin.z = crate::math::fx_clamp(oc.z + other_l2 + self_l2);
        }
    }

    /// Move the box's centre.
    pub fn set_origin(&mut self, new_origin: &Vec3)
        requires
            old(self).wf(),
            v3_wf(*new_origin),
        ensures
            *final(self) == (RectangleCollider { origin: *new_origin, ..*old(self) }),
            final(self).wf(),
    {
        self.origin = *new_origin;
    }

    /// The box's centre.
    pub fn origin(&self) -> (r: &Vec3)
        ensures
            *r == self.origin,
    {
        &self.origin
    }

    /// Full extent along X.
    pub fn width(&self) -> (r: i64)
        ensures
            r == self.width,
    {
        self.width
    }

    /// Full extent along Y.
    pub fn height(&self) -> (r: i64)
        ensures
            r == self.height,
    {
        self.height
    }

    /// Full extent along Z.
    pub fn length(&self) -> (r: i64)
        ensures
            r == self.length,
    {
        self.length
    }
}

/// The four corner points of a plane: the local rectangle corners
/// rotated by the orientation and translated to the plane's origin.
pub open spec fn plane_points_s(w: int, l: int, o: Vec3, q: Quat) -> Seq<Vec3> {
    let w2 = half_s(w);
    let l2 = half_s(l);
    seq![
        v3_plus_s(q_rotate_s(q, Vec3 { x: (-w2) as i64, y: 0, z: l2 as i64 }), o),
        v3_plus_s(q_rotate_s(q, Vec3 { x: w2 as i64, y: 0, z: l2 as i64 }), o),
        v3_plus_s(q_rotate_s(q, Vec3 { x: w2 as i64, y: 0, z: (-l2) as i64 }), o),
        v3_plus_s(q_rotate_s(q, Vec3 { x: (-w2) as i64, y: 0, z: (-l2) as i64 }), o),
    ]
}

/// The plane's normal: the local unit Y direction rotated by the
/// orientation.
pub open spec fn plane_normal_s(q: Quat) -> Vec3 {
    q_rotate_s(q, Vec3 { x: 0, y: SCALE, z: 0 })
}

impl StationaryPlaneCollider {
    /// Build a stationary plane from extents, a centre and an
    /// orientation. Construction is rejected when the orientation is
    /// degenerate: a zero quaternion, or one whose rotated normal
    /// collapses to the zero vector.
    pub fn new(width: i64, length: i64, origin: Vec3, orientation: Quat) -> (r: Result<
        StationaryPlaneCollider,
        GeometryError,
    >)
        requires
            0 <= width <= FX_MAX,
            0 <= length <= FX_MAX,
            v3_wf(origin),
            q_wf(orientation),
        ensures
            r is Ok <==> crate::quat::q_norm2_s(orientation) > 0 && plane_normal_s(orientation)
                != (Vec3 { x: 0, y: 0, z: 0 }),
            r matches Ok(p) ==> {
                &&& p.width == width
                &&& p.length == length
                &&& p.origin == origin
                &&& p.plane_points@ == plane_points_s(width as int, length as int, origin, orientation)
                &&& p.local_normal == plane_normal_s(orientation)
                &&& p.wf()
            },
    {
        let n2 = orientation.norm2();
        if n2 <= 0 {
            proof {
                assert(plane_normal_s(orientation) == (Vec3 { x: 0, y: SCALE, z: 0 }));
            }
            return Err(GeometryError::DegenerateOrientation);
        }
        let normal = orientation.rotate_vector(&Vec3 { x: 0, y: SCALE, z: 0 });
        if normal.x == 0 && normal.y == 0 && normal.z == 0 {
            return Err(GeometryError::DegenerateOrientation);
        }
        let w2 = fx_half(width);
        let l2 = fx_half(length);
        let p0 = orientation.rotate_vector(&Vec3 { x: -w2, y: 0, z: l2 }).plus(&origin);
        let p1 = orientation.rotate_vector(&Vec3 { x: w2, y: 0, z: l2 }).plus(&origin);
        let p2 = orientation.rotate_vector(&Vec3 { x: w2, y: 0, z: -l2 }).plus(&origin);
        let p3 = orientation.rotate_vector(&Vec3 { x: -w2, y: 0, z: -l2 }).plus(&origin);
        let pts = [p0, p1, p2, p3];
        proof {
            assert(pts@ =~= plane_points_s(width as int, length as int, origin, orientation));
        }
        Ok(StationaryPlaneCollider { width, length, origin, plane_points: pts, local_normal: normal })
    }

    /// A stationary plane never reports a collision of its own.
    pub fn is_colliding(&self, _other: &Collider) -> (r: bool)
        ensures
            r == false,
    {
        false
    }

    /// Never colliding along X.
    pub fn is_colliding_x(&self, _other: &Collider) -> (r: bool)
        ensures
            r == false,
    {
        false
    }

    /// Never colliding along Y.
    pub fn is_colliding_y(&self, _other: &Collider) -> (r: bool)
        ensures
            r == false,
    {
        false
    }

    /// Never colliding along Z.
    pub fn is_colliding_z(&self, _other: &Collider) -> (r: bool)
        ensures
            r == false,
    {
        false
    }

    /// Whether the interval spanned by the plane's corners along X
    /// intersects the given interval (a collapsed span is tested as
    /// a point instead).
    pub fn contains_x(&self, range: &AxisRange) -> (r: bool)
        requires
            self.wf(),
        ensures
            r == plane_contains_x_s(*self, range.start as int, range.end as int),
    {
        let p0 = self.plane_points[0].x;
        let p1 = self.plane_points[1].x;
        let p2 = self.plane_points[2].x;
        let p3 = self.plane_points[3].x;
        span_contains_e(p0, p1, p2, p3, range)
    }

    /// Interval intersection along Y.
    pub fn contains_y(&self, range: &AxisRange) -> (r: bool)
        requires
            self.wf(),
        ensures
            r == plane_contains_y_s(*self, range.start as int, range.end as int),
    {
        let p0 = self.plane_points[0].y;
        let p1 = self.plane_points[1].y;
        let p2 = self.plane_points[2].y;
        let p3 = self.plane_points[3].y;
        span_contains_e(p0, p1, p2, p3, range)
    }

    /// Interval intersection along Z.
    pub fn contains_z(&self, range: &AxisRange) -> (r: bool)
        requires
            self.wf(),
        ensures
            r == plane_contains_z_s(*self, range.start as int, range.end as int),
    {
        let p0 = self.plane_points[0].z;
        let p1 = self.plane_points[1].z;
        let p2 = self.plane_points[2].z;
        let p3 = self.plane_points[3].z;
        span_contains_e(p0, p1, p2, p3, range)
    }

    /// Snapping never moves a stationary plane.
    pub fn snap(&mut self, _other: &Collider)
        ensures
            *final(self) == *old(self),
    {
    }

    /// No movement along X.
    pub fn snap_x(&mut self, _other: &Collider)
        ensures
            *final(self) == *old(self),
    {
    }

    /// No movement along Y.
    pub fn snap_y(&mut self, _other: &Collider)
        ensures
            *final(self) == *old(self),
    {
    }

    /// No movement along Z.
    pub fn snap_z(&mut self, _other: &Collider)
        ensures
            *final(self) == *old(self),
    {
    }

    /// A stationary plane rejects origin changes.
    pub fn set_origin(&mut self, _new_origin: &Vec3)
        ensures
            *final(self) == *old(self),
    {
    }

    /// The plane's centre.
    pub fn origin(&self) -> (r: &Vec3)
        ensures
            *r == self.origin,
    {
        &self.origin
    }

    /// Full extent along X.
    pub fn width(&self) -> (r: i64)
        ensures
            r == self.width,
    {
        self.width
    }

    /// A plane has no vertical extent.
    pub fn height(&self) -> (r: i64)
        ensures
            r == 0,
    {
        0
    }

    /// Full extent along Z.
    pub fn length(&self) -> (r: i64)
        ensures
            r == self.length,
    {
        self.length
    }
}

/// Shared implementation of the plane's per-axis span test.
fn span_contains_e(p0: i64, p1: i64, p2: i64, p3: i64, range: &AxisRange) -> (r: bool)
    ensures
        r == span_contains_s(
            p0 as int,
            p1 as int,
            p2 as int,
            p3 as int,
            range.start as int,
            range.end as int,
        ),
{
    let mut lo = p0;
    let mut hi = p0;
    if p1 < lo {
        lo = p1;
    }
    if p1 > hi {
        hi = p1;
    }
    if p2 < lo {
        lo = p2;
    }
    if p2 > hi {
        hi = p2;
    }
    if p3 < lo {
        lo = p3;
    }
    if p3 > hi {
        hi = p3;
    }
    if lo >= hi {
        range.start <= lo && lo < range.end
    } else {
        let s = if lo > range.start {
            lo
        } else {
            range.start
        };
        let e = if hi < range.end {
            hi
        } else {
            range.end
        };
        s < e
    }
}

impl Collider {
    /// The centre of either shape.
    pub fn origin(&self) -> (r: Vec3)
        ensures
            r == c_origin(*self),
    {
        match self {
            Collider::Rectangle(c) => c.origin,
            Collider::Plane(p) => p.origin,
        }
    }

    /// The X extent of either shape.
    pub fn width(&self) -> (r: i64)
        ensures
            r == c_width(*self),
    {
        match self {
            Collider::Rectangle(c) => c.width,
            Collider::Plane(p) => p.width,
        }
    }

    /// The Y extent of either shape; a plane is flat.
    pub fn height(&self) -> (r: i64)
        ensures
            r == c_height(*self),
    {
        match self {
            Collider::Rectangle(c) => c.height,
            Collider::Plane(_) => 0,
        }
    }

    /// The Z extent of either shape.
    pub fn length(&self) -> (r: i64)
        ensures
            r == c_length(*self),
    {
        match self {
            Collider::Rectangle(c) => c.length,
            Collider::Plane(p) => p.length,
        }
    }

    /// Interval intersection along X for either shape.
    pub fn contains_x(&self, range: &AxisRange) -> (r: bool)
        requires
            self.wf(),
        ensures
            r == c_contains_x(*self, range.start as int, range.end as int),
    {
        match self {
            Collider::Rectangle(c) => c.contains_x(range),
            Collider::Plane(p) => p.contains_x(range),
        }
    }

    /// Interval intersection along Y for either shape.
    pub fn contains_y(&self, range: &AxisRange) -> (r: bool)
        requires
            self.wf(),
        ensures
            r == c_contains_y(*self, range.start as int, range.end as int),
    {
        match self {
            Collider::Rectangle(c) => c.contains_y(range),
            Collider::Plane(p) => p.contains_y(range),
        }
    }

    /// Interval intersection along Z for either shape.
    pub fn contains_z(&self, range: &AxisRange) -> (r: bool)
        requires
            self.wf(),
        ensures
            r == c_contains_z(*self, range.start as int, range.end as int),
    {
        match self {
            Collider::Rectangle(c) => c.contains_z(range),
            Collider::Plane(p) => p.contains_z(range),
        }
    }
}

} // verus!
