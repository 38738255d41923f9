//! The library's laws: properties that relate several operations,
//! stated once and proved for every input they hold on.

use vstd::prelude::*;

use crate::collider::Collider;
use crate::collider::RectangleCollider;
use crate::collider::axis_contains_s;
use crate::collider::c_height;
use crate::collider::c_length;
use crate::collider::c_origin;
use crate::collider::c_width;
use crate::collider::rect_colliding_x_s;
use crate::collider::rect_colliding_y_s;
use crate::collider::rect_colliding_z_s;
use crate::collider::rect_is_colliding_s;
use crate::collider::rect_snap_s;
use crate::collider::rect_snap_x_s;
use crate::collider::rect_snap_y_s;
use crate::collider::rect_snap_z_s;
use crate::collider::snap_axis_s;
use crate::gravity::Gravity;
use crate::gravity::gravity_step_s;
use crate::math::FX_MAX;
use crate::math::SCALE;
use crate::math::fx_wf;
use crate::math::half_s;
use crate::table::kv_contains;
use crate::table::kv_get;
use crate::table::kv_insert;
use crate::table::kv_remove;
use crate::table::kv_wf;
use crate::table::lemma_kv_index_props;
use crate::table::lemma_kv_insert_frame;
use crate::table::lemma_kv_remove_frame;
use crate::vec3::Vec3;
use crate::world::Entity;
use crate::world::World;

verus! {

/// After a component is stored for an entity, looking that entity up
/// in the same type's table returns exactly that component, and no
/// other entity's component has changed. The first argument is the
/// table as it stood before the insertion (empty on first use), as
/// `add_component_to_entity` reports it.
pub proof fn law_query_after_add<C>(before: Seq<(Entity, C)>, e: Entity, c: C)
    requires
        kv_wf(before),
    ensures
        kv_contains(kv_insert(before, e, c), e),
        kv_get(kv_insert(before, e, c), e) == c,
        forall|e2: Entity|
            e2 != e && kv_contains(before, e2) ==> #[trigger] kv_get(kv_insert(before, e, c), e2)
                == kv_get(before, e2),
{
    lemma_kv_insert_frame(before, e, c);
}

/// After an entity is removed from the world, no table of any
/// component type contains an entry for it any more.
pub proof fn law_removed_entity_never_found<C>(w0: World<C>, w1: World<C>, e: Entity)
    requires
        w0.wf(),
        w1.component_maps@.len() == w0.component_maps@.len(),
        forall|i: int|
            0 <= i < w0.component_maps@.len() ==> {
                &&& (#[trigger] w1.component_maps@[i]).0 == w0.component_maps@[i].0
                &&& w1.component_maps@[i].1@ == kv_remove(w0.component_maps@[i].1@, e)
            },
    ensures
        forall|tid: u64| #[trigger] w1.has_table(tid) ==> !kv_contains(w1.table(tid), e),
{
    assert forall|tid: u64| #[trigger] w1.has_table(tid) implies !kv_contains(
        w1.table(tid),
        e,
    ) by {
        let maps1 = w1.component_maps@;
        let maps0 = w0.component_maps@;
        lemma_kv_index_props(maps1, tid);
        let i = crate::table::kv_first_index(maps1, tid);
        crate::tick::lemma_kv_parallel(maps1, maps0, tid);
        assert(w1.table(tid) == maps1[i].1@);
        assert(maps1[i].1@ == kv_remove(maps0[i].1@, e));
        lemma_kv_remove_frame(maps0[i].1@, e);
    }
}

/// Box-against-box collision is symmetric: the closed-span overlap
/// test reads the same from either side.
pub proof fn law_box_box_symmetric(a: RectangleCollider, b: RectangleCollider)
    ensures
        rect_is_colliding_s(a, Collider::Rectangle(b)) == rect_is_colliding_s(
            b,
            Collider::Rectangle(a),
        ),
{
}

/// One axis of the snap: pushing the centre out of contact toward
/// the side it already lies on leaves the two half-open spans
/// disjoint, provided the pushed-out centre stays representable.
proof fn lemma_snap_axis_separates(ac: int, ae: int, bc: int, be: int)
    requires
        ac != bc,
        ae >= 0,
        be >= 0,
        bc + half_s(be) + half_s(ae) <= FX_MAX,
        -FX_MAX <= bc - half_s(be) - half_s(ae),
    ensures
        ({
            let sc = snap_axis_s(ac, ae, bc, be);
            !axis_contains_s(bc, be, sc - half_s(ae), sc + half_s(ae))
        }),
{
}

/// Snapping along an axis is idempotent: a second snap moves
/// nothing.
proof fn lemma_snap_axis_idempotent(ac: int, ae: int, bc: int, be: int)
    requires
        ae >= 0,
        be >= 0,
        -FX_MAX <= bc <= FX_MAX,
    ensures
        snap_axis_s(snap_axis_s(ac, ae, bc, be), ae, bc, be) == snap_axis_s(ac, ae, bc, be),
{
}

/// After snapping along X, the box no longer collides with the
/// other box along X, and a second snap is a no-op. A tie of the
/// two centres applies no correction, so it is excluded.
pub proof fn law_snap_x_resolves(a: RectangleCollider, b: RectangleCollider)
    requires
        a.wf(),
        b.wf(),
        a.origin.x != b.origin.x,
        b.origin.x + half_s(b.width as int) + half_s(a.width as int) <= FX_MAX,
        -FX_MAX <= b.origin.x - half_s(b.width as int) - half_s(a.width as int),
    ensures
        !rect_colliding_x_s(rect_snap_x_s(a, Collider::Rectangle(b)), Collider::Rectangle(b)),
        rect_snap_x_s(rect_snap_x_s(a, Collider::Rectangle(b)), Collider::Rectangle(b))
            == rect_snap_x_s(a, Collider::Rectangle(b)),
{
    lemma_snap_axis_separates(a.origin.x as int, a.width as int, b.origin.x as int, b.width as int);
    lemma_snap_axis_idempotent(a.origin.x as int, a.width as int, b.origin.x as int, b.width as int);
}

/// After snapping along Y, the box no longer collides with the
/// other box along Y, and a second snap is a no-op. A tie of the
/// two centres applies no correction, so it is excluded.
pub proof fn law_snap_y_resolves(a: RectangleCollider, b: RectangleCollider)
    requires
        a.wf(),
        b.wf(),
        a.origin.y != b.origin.y,
        b.origin.y + half_s(b.height as int) + half_s(a.height as int) <= FX_MAX,
        -FX_MAX <= b.origin.y - half_s(b.height as int) - half_s(a.height as int),
    ensures
        !rect_colliding_y_s(rect_snap_y_s(a, Collider::Rectangle(b)), Collider::Rectangle(b)),
        rect_snap_y_s(rect_snap_y_s(a, Collider::Rectangle(b)), Collider::Rectangle(b))
            == rect_snap_y_s(a, Collider::Rectangle(b)),
{
    lemma_snap_axis_separates(
        a.origin.y as int,
        a.height as int,
        b.origin.y as int,
        b.height as int,
    );
    lemma_snap_axis_idempotent(
        a.origin.y as int,
        a.height as int,
        b.origin.y as int,
        b.height as int,
    );
}

/// After snapping along Z, the box no longer collides with the
/// other box along Z, and a second snap is a no-op. A tie of the
/// two centres applies no correction, so it is excluded.
pub proof fn law_snap_z_resolves(a: RectangleCollider, b: RectangleCollider)
    requires
        a.wf(),
        b.wf(),
        a.origin.z != b.origin.z,
        b.origin.z + half_s(b.length as int) + half_s(a.length as int) <= FX_MAX,
        -FX_MAX <= b.origin.z - half_s(b.length as int) - half_s(a.length as int),
    ensures
        !rect_colliding_z_s(rect_snap_z_s(a, Collider::Rectangle(b)), Collider::Rectangle(b)),
        rect_snap_z_s(rect_snap_z_s(a, Collider::Rectangle(b)), Collider::Rectangle(b))
            == rect_snap_z_s(a, Collider::Rectangle(b)),
{
    lemma_snap_axis_separates(
        a.origin.z as int,
        a.length as int,
        b.origin.z as int,
        b.length as int,
    );
    lemma_snap_axis_idempotent(
        a.origin.z as int,
        a.length as int,
        b.origin.z as int,
        b.length as int,
    );
}

/// Snapping on all three axes is idempotent against any collider.
pub proof fn law_snap_idempotent(a: RectangleCollider, other: Collider)
    requires
        a.wf(),
        other.wf(),
    ensures
        rect_snap_s(rect_snap_s(a, other), other) == rect_snap_s(a, other),
{
    lemma_snap_axis_idempotent(
        a.origin.x as int,
        a.width as int,
        c_origin(other).x as int,
        c_width(other),
    );
    lemma_snap_axis_idempotent(
        a.origin.y as int,
        a.height as int,
        c_origin(other).y as int,
        c_height(other),
    );
    lemma_snap_axis_idempotent(
        a.origin.z as int,
        a.length as int,
        c_origin(other).z as int,
        c_length(other),
    );
}

/// A body at rest integrated for exactly one second gains exactly
/// its constant acceleration as velocity.
pub proof fn law_unit_step_velocity(g: Gravity)
    requires
        g.wf(),
        g.velocity == (Vec3 { x: 0, y: 0, z: 0 }),
    ensures
        gravity_step_s(g, SCALE as int).velocity == g.acceleration,
{
    lemma_times_scale_exact(g.acceleration.x as int);
    lemma_times_scale_exact(g.acceleration.y as int);
    lemma_times_scale_exact(g.acceleration.z as int);
}

/// Multiplying by one (in fixed point) changes nothing.
proof fn lemma_times_scale_exact(a: int)
    requires
        fx_wf(a),
    ensures
        crate::math::fx_mul_s(a, SCALE as int) == a,
{
    if a >= 0 {
        vstd::arithmetic::div_mod::lemma_div_multiples_vanish(a, SCALE as int);
    } else {
        vstd::arithmetic::div_mod::lemma_div_multiples_vanish(-a, SCALE as int);
        assert(-(a * (SCALE as int)) == (-a) * (SCALE as int)) by (nonlinear_arith);
    }
}

} // verus!
