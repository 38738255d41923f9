//! The per-tick simulation stages: gravity integration with
//! collision resolution, mirroring dirty transforms to the renderer,
//! and applying camera-controller intents.
//!
//! Every stage reads the component tables at the start of the tick
//! and rewrites each affected entity's components from its own old
//! state alone, so the effect is described entity by entity.

use vstd::prelude::*;

use crate::camera::Camera3d;
use crate::collider::Collider;
use crate::collider::RectangleCollider;
use crate::collider::rect_is_colliding_s;
use crate::collider::rect_snap_y_s;
use crate::component::Component;
use crate::component::CAMERA3D_ID;
use crate::component::CAMERA_CONTROLLER_ID;
use crate::component::GRAVITY_ID;
use crate::component::LIGHT_ID;
use crate::component::MODEL3D_ID;
use crate::component::component_type_id_s;
use crate::component::RECTANGLE_COLLIDER_ID;
use crate::component::STATIONARY_PLANE_COLLIDER_ID;
use crate::component::TRANSFORM3D_ID;
use crate::gravity::Gravity;
use crate::gravity::gravity_step_s;
use crate::manager::HeliumManager;
use crate::manager::RenderCommand;
use crate::manager::lemma_same_tables;
use crate::math::cl;
use crate::math::fx_clamp;
use crate::math::fx_wf;
use crate::table::kv_contains;
use crate::table::kv_first_index;
use crate::table::kv_get;
use crate::table::kv_insert;
use crate::table::lemma_kv_index_props;
use crate::table::lemma_kv_scan_first;
use crate::transform::Transform3d;
use crate::vec3::Vec3;
use crate::vec3::v3_plus_s;
use crate::vec3::v3_times_s;
use crate::world::Entity;

verus! {

/// A gravity state with its velocity zeroed (ground contact).
pub open spec fn grav_kill(g: Gravity) -> Gravity {
    Gravity { velocity: Vec3 { x: 0, y: 0, z: 0 }, ..g }
}

/// Resolve a falling box against the first `n` plane entries, in
/// table order: each plane that the box overlaps snaps it out along
/// the Y axis and zeroes its velocity. The flag records whether any
/// plane was hit.
pub open spec fn resolve_planes(
    r: RectangleCollider,
    g: Gravity,
    planes: Seq<(Entity, Component)>,
    n: int,
) -> (RectangleCollider, Gravity, bool)
    decreases n,
{
    if n <= 0 {
        (r, g, false)
    } else {
        let prev = resolve_planes(r, g, planes, n - 1);
        match planes[n - 1].1 {
            Component::Plane(p) => {
                if rect_is_colliding_s(prev.0, Collider::Plane(p)) {
                    (rect_snap_y_s(prev.0, Collider::Plane(p)), grav_kill(prev.1), true)
                } else {
                    prev
                }
            },
            _ => prev,
        }
    }
}

/// One entity's physics step: integrate gravity; a box with a
/// transform is then resolved against every stationary plane; on a
/// hit the resolved box position is written back into the transform,
/// otherwise the transform advances by the velocity.
pub open spec fn entity_step(
    g: Gravity,
    ro: Option<RectangleCollider>,
    to: Option<Transform3d>,
    planes: Seq<(Entity, Component)>,
    dt: int,
) -> (Gravity, Option<RectangleCollider>, Option<Transform3d>) {
    let g1 = gravity_step_s(g, dt);
    match (ro, to) {
        (Some(r), Some(t)) => {
            let res = resolve_planes(r, g1, planes, planes.len() as int);
            let t2 = if res.2 {
                Transform3d { position: res.0.origin, rotation: t.rotation, update_flag: true }
            } else {
                Transform3d {
                    position: v3_plus_s(t.position, v3_times_s(res.1.velocity, dt)),
                    rotation: t.rotation,
                    update_flag: true,
                }
            };
            (res.1, Some(res.0), Some(t2))
        },
        (Some(r), None) => (g1, Some(r), None),
        (None, Some(t)) => (
            g1,
            None,
            Some(
                Transform3d {
                    position: v3_plus_s(t.position, v3_times_s(g1.velocity, dt)),
                    rotation: t.rotation,
                    update_flag: true,
                },
            ),
        ),
        (None, None) => (g1, None, None),
    }
}

/// The box collider of an entity, when its entry carries one.
pub open spec fn rect_of(s: Seq<(Entity, Component)>, e: Entity) -> Option<RectangleCollider> {
    if kv_contains(s, e) {
        match kv_get(s, e) {
            Component::Rectangle(r) => Some(r),
            _ => None,
        }
    } else {
        None
    }
}

/// The transform of an entity, when its entry carries one.
pub open spec fn trans_of(s: Seq<(Entity, Component)>, e: Entity) -> Option<Transform3d> {
    if kv_contains(s, e) {
        match kv_get(s, e) {
            Component::Transform(t) => Some(t),
            _ => None,
        }
    } else {
        None
    }
}

/// The gravity state of an entity, when its entry carries one.
pub open spec fn grav_of(s: Seq<(Entity, Component)>, e: Entity) -> Option<Gravity> {
    if kv_contains(s, e) {
        match kv_get(s, e) {
            Component::Gravity(g) => Some(g),
            _ => None,
        }
    } else {
        None
    }
}

/// A table's entries, or the empty table when none is registered.
pub open spec fn tbl_or_empty(m: HeliumManager, tid: u64) -> Seq<(Entity, Component)> {
    if m.has_table(tid) {
        m.table(tid)
    } else {
        Seq::<(Entity, Component)>::empty()
    }
}

/// The gravity component the tick leaves at position `j` of the
/// gravity table.
#[verifier::opaque]
pub open spec fn gravity_after_tick(m: HeliumManager, j: int) -> Component {
    let gt = m.table(GRAVITY_ID);
    let e = gt[j].0;
    match gt[j].1 {
        Component::Gravity(g) => Component::Gravity(
            entity_step(
                g,
                rect_of(tbl_or_empty(m, RECTANGLE_COLLIDER_ID), e),
                trans_of(tbl_or_empty(m, TRANSFORM3D_ID), e),
                tbl_or_empty(m, STATIONARY_PLANE_COLLIDER_ID),
                cl(m.delta_time as int),
            ).0,
        ),
        c => c,
    }
}

/// The box collider the tick leaves at position `j` of the collider
/// table.
#[verifier::opaque]
pub open spec fn rect_after_tick(m: HeliumManager, j: int) -> Component {
    let rt = m.table(RECTANGLE_COLLIDER_ID);
    let e = rt[j].0;
    match grav_of(m.table(GRAVITY_ID), e) {
        Some(g) => {
            match entity_step(
                g,
                rect_of(tbl_or_empty(m, RECTANGLE_COLLIDER_ID), e),
                trans_of(tbl_or_empty(m, TRANSFORM3D_ID), e),
                tbl_or_empty(m, STATIONARY_PLANE_COLLIDER_ID),
                cl(m.delta_time as int),
            ).1 {
                Some(r2) => Component::Rectangle(r2),
                None => rt[j].1,
            }
        },
        None => rt[j].1,
    }
}

/// The transform the tick leaves at position `j` of the transform
/// table.
#[verifier::opaque]
pub open spec fn trans_after_tick(m: HeliumManager, j: int) -> Component {
    let tt = m.table(TRANSFORM3D_ID);
    let e = tt[j].0;
    match grav_of(m.table(GRAVITY_ID), e) {
        Some(g) => {
            match entity_step(
                g,
                rect_of(tbl_or_empty(m, RECTANGLE_COLLIDER_ID), e),
                trans_of(tbl_or_empty(m, TRANSFORM3D_ID), e),
                tbl_or_empty(m, STATIONARY_PLANE_COLLIDER_ID),
                cl(m.delta_time as int),
            ).2 {
                Some(t2) => Component::Transform(t2),
                None => tt[j].1,
            }
        },
        None => tt[j].1,
    }
}

/// Two key-value sequences with the same keys in the same order
/// agree on containment, first index, and the positions lookups
/// denote.
pub proof fn lemma_kv_parallel<K, V>(s1: Seq<(K, V)>, s2: Seq<(K, V)>, e: K)
    requires
        s1.len() == s2.len(),
        forall|j: int| 0 <= j < s1.len() ==> (#[trigger] s1[j]).0 == s2[j].0,
    ensures
        kv_contains(s1, e) == kv_contains(s2, e),
        kv_contains(s1, e) ==> {
            let i = kv_first_index(s1, e);
            &&& kv_first_index(s2, e) == i
            &&& 0 <= i < s1.len()
            &&& s1[i].0 == e
            &&& kv_get(s1, e) == s1[i].1
            &&& kv_get(s2, e) == s2[i].1
        },
{
    if kv_contains(s1, e) {
        lemma_kv_index_props(s1, e);
        let i = kv_first_index(s1, e);
        assert forall|j: int| 0 <= j < i implies (#[trigger] s2[j]).0 != e by {
            assert(s1[j].0 == s2[j].0);
        }
        crate::table::lemma_kv_scan(s2, e, i);
    } else {
        assert forall|j: int| 0 <= j < s2.len() implies (#[trigger] s2[j]).0 != e by {
            assert(s1[j].0 == s2[j].0);
        }
        crate::table::lemma_kv_absent(s2, e);
    }
}

/// Read the gravity table entry at one position.
fn read_gravity_entry(manager: &HeliumManager, k: usize) -> (r: (Entity, Option<Gravity>))
    requires
        manager.wf(),
        manager.has_table(GRAVITY_ID),
        k < manager.table(GRAVITY_ID).len(),
    ensures
        r.0 == manager.table(GRAVITY_ID)[k as int].0,
        match r.1 {
            Some(g) => manager.table(GRAVITY_ID)[k as int].1 == Component::Gravity(g) && g.wf(),
            None => !(manager.table(GRAVITY_ID)[k as int].1 is Gravity),
        },
{
    let t = match manager.query(GRAVITY_ID) {
        Some(t) => t,
        None => {
            proof {
                assert(false);
            }
            unreached()
        },
    };
    let e = t.entity_at(k);
    let g = match t.value_at(k) {
        Component::Gravity(g) => Some(*g),
        _ => None,
    };
    (e, g)
}

/// Read the box collider of an entity, if it has one.
fn read_rect_of(manager: &HeliumManager, e: Entity) -> (r: Option<RectangleCollider>)
    requires
        manager.wf(),
    ensures
        match r {
            Some(rc) => rect_of(tbl_or_empty(*manager, RECTANGLE_COLLIDER_ID), e) == Some(rc)
                && rc.wf(),
            None => rect_of(tbl_or_empty(*manager, RECTANGLE_COLLIDER_ID), e) is None,
        },
{
    match manager.query(RECTANGLE_COLLIDER_ID) {
        None => None,
        Some(t) => {
            match t.get(e) {
                Some(c) => {
                    proof {
                        lemma_kv_index_props(manager.table(RECTANGLE_COLLIDER_ID), e);
                    }
                    match c {
                        Component::Rectangle(rc) => Some(*rc),
                        _ => None,
                    }
                },
                None => None,
            }
        },
    }
}

/// Read the transform of an entity, if it has one.
fn read_trans_of(manager: &HeliumManager, e: Entity) -> (r: Option<Transform3d>)
    requires
        manager.wf(),
    ensures
        match r {
            Some(t) => trans_of(tbl_or_empty(*manager, TRANSFORM3D_ID), e) == Some(t) && t.wf(),
            None => trans_of(tbl_or_empty(*manager, TRANSFORM3D_ID), e) is None,
        },
{
    match manager.query(TRANSFORM3D_ID) {
        None => None,
        Some(t) => {
            match t.get(e) {
                Some(c) => {
                    proof {
                        lemma_kv_index_props(manager.table(TRANSFORM3D_ID), e);
                    }
                    match c {
                        Component::Transform(tr) => Some(*tr),
                        _ => None,
                    }
                },
                None => None,
            }
        },
    }
}

/// Read the plane collider at one position of the plane table.
fn read_plane_at(manager: &HeliumManager, pi: usize) -> (r: Option<
    crate::collider::StationaryPlaneCollider,
>)
    requires
        manager.wf(),
        manager.has_table(STATIONARY_PLANE_COLLIDER_ID),
        pi < manager.table(STATIONARY_PLANE_COLLIDER_ID).len(),
    ensures
        match r {
            Some(p) => manager.table(STATIONARY_PLANE_COLLIDER_ID)[pi as int].1
                == Component::Plane(p) && p.wf(),
            None => !(manager.table(STATIONARY_PLANE_COLLIDER_ID)[pi as int].1 is Plane),
        },
{
    let t = match manager.query(STATIONARY_PLANE_COLLIDER_ID) {
        Some(t) => t,
        None => {
            proof {
                assert(false);
            }
            unreached()
        },
    };
    match t.value_at(pi) {
        Component::Plane(p) => Some(*p),
        _ => None,
    }
}

/// Read the camera of an entity, if it has one.
fn read_cam_of(manager: &HeliumManager, e: Entity) -> (r: Option<Camera3d>)
    requires
        manager.wf(),
    ensures
        match r {
            Some(c) => cam_of(tbl_or_empty(*manager, CAMERA3D_ID), e) == Some(c) && c.wf(),
            None => cam_of(tbl_or_empty(*manager, CAMERA3D_ID), e) is None,
        },
{
    match manager.query(CAMERA3D_ID) {
        None => None,
        Some(t) => {
            match t.get(e) {
                Some(c) => {
                    proof {
                        lemma_kv_index_props(manager.table(CAMERA3D_ID), e);
                    }
                    match c {
                        Component::Camera(cc) => Some(*cc),
                        _ => None,
                    }
                },
                None => None,
            }
        },
    }
}

/// Read the light of an entity, if it has one.
fn read_light_of(manager: &HeliumManager, e: Entity) -> (r: Option<crate::light::Light>)
    requires
        manager.wf(),
    ensures
        match r {
            Some(l) => light_of(tbl_or_empty(*manager, LIGHT_ID), e) == Some(l) && l.wf(),
            None => light_of(tbl_or_empty(*manager, LIGHT_ID), e) is None,
        },
{
    match manager.query(LIGHT_ID) {
        None => None,
        Some(t) => {
            match t.get(e) {
                Some(c) => {
                    proof {
                        lemma_kv_index_props(manager.table(LIGHT_ID), e);
                    }
                    match c {
                        Component::Light(l) => Some(*l),
                        _ => None,
                    }
                },
                None => None,
            }
        },
    }
}

/// Read the renderer object slot of the entity's model, if the
/// entity has a linked model.
fn read_model_index(manager: &HeliumManager, e: Entity) -> (r: Option<usize>)
    requires
        manager.wf(),
    ensures
        r == manager.model_index_of(e),
{
    match manager.query(MODEL3D_ID) {
        None => None,
        Some(t) => {
            match t.get(e) {
                Some(Component::Model(m)) => {
                    match m.get_renderer_index() {
                        Some(i) => Some(*i),
                        None => None,
                    }
                },
                _ => None,
            }
        },
    }
}

/// The state the physics stage maintains while it walks the gravity
/// table: positions before `k` are stepped, positions from `k` on
/// are untouched, every other table is untouched, and the collider
/// and transform tables are stepped exactly for the entities whose
/// gravity entry lies before `k`.
pub open spec fn tick_inv(m0: HeliumManager, m: HeliumManager, k: int) -> bool {
    let gt0 = m0.table(GRAVITY_ID);
    let rt0 = tbl_or_empty(m0, RECTANGLE_COLLIDER_ID);
    let tt0 = tbl_or_empty(m0, TRANSFORM3D_ID);
    &&& m0.wf()
    &&& m0.has_table(GRAVITY_ID)
    &&& m.wf()
    &&& 0 <= k <= gt0.len()
    &&& HeliumManager::same_control_state(m0, m)
    &&& m.render_queue@ == m0.render_queue@
    &&& m.ecs_instance.world.entity_count == m0.ecs_instance.world.entity_count
    &&& m.ecs_instance.world.num_entities == m0.ecs_instance.world.num_entities
    &&& forall|t: u64| #[trigger] m.has_table(t) == m0.has_table(t)
    &&& forall|t: u64|
        t != GRAVITY_ID && t != RECTANGLE_COLLIDER_ID && t != TRANSFORM3D_ID && m0.has_table(t)
            ==> #[trigger] m.table(t) == m0.table(t)
    &&& m.table(GRAVITY_ID).len() == gt0.len()
    &&& forall|j: int| 0 <= j < gt0.len() ==> (#[trigger] m.table(GRAVITY_ID)[j]).0 == gt0[j].0
    &&& forall|j: int| k <= j < gt0.len() ==> (#[trigger] m.table(GRAVITY_ID)[j]).1 == gt0[j].1
    &&& forall|j: int|
        0 <= j < k ==> (#[trigger] m.table(GRAVITY_ID)[j]).1 == gravity_after_tick(m0, j)
    &&& m0.has_table(RECTANGLE_COLLIDER_ID) ==> {
        &&& m.table(RECTANGLE_COLLIDER_ID).len() == rt0.len()
        &&& forall|j: int|
            0 <= j < rt0.len() ==> (#[trigger] m.table(RECTANGLE_COLLIDER_ID)[j]).0 == rt0[j].0
        &&& forall|j: int|
            0 <= j < rt0.len() ==> (#[trigger] m.table(RECTANGLE_COLLIDER_ID)[j]).1 == (if grav_of(
                gt0,
                rt0[j].0,
            ) is Some && 0 <= kv_first_index(gt0, rt0[j].0) < k {
                rect_after_tick(m0, j)
            } else {
                rt0[j].1
            })
    }
    &&& m0.has_table(TRANSFORM3D_ID) ==> {
        &&& m.table(TRANSFORM3D_ID).len() == tt0.len()
        &&& forall|j: int|
            0 <= j < tt0.len() ==> (#[trigger] m.table(TRANSFORM3D_ID)[j]).0 == tt0[j].0
        &&& forall|j: int|
            0 <= j < tt0.len() ==> (#[trigger] m.table(TRANSFORM3D_ID)[j]).1 == (if grav_of(
                gt0,
                tt0[j].0,
            ) is Some && 0 <= kv_first_index(gt0, tt0[j].0) < k {
                trans_after_tick(m0, j)
            } else {
                tt0[j].1
            })
    }
}

/// Fold one box and its gravity state over every plane entry, in
/// table order.
fn resolve_against_planes(manager: &HeliumManager, r: RectangleCollider, g: Gravity) -> (res: (
    RectangleCollider,
    Gravity,
    bool,
))
    requires
        manager.wf(),
        r.wf(),
        g.wf(),
    ensures
        ({
            let planes = tbl_or_empty(*manager, STATIONARY_PLANE_COLLIDER_ID);
            &&& res == resolve_planes(r, g, planes, planes.len() as int)
            &&& res.0.wf()
            &&& res.1.wf()
        }),
{
    let ghost planes = tbl_or_empty(*manager, STATIONARY_PLANE_COLLIDER_ID);
    let plen = match manager.query(STATIONARY_PLANE_COLLIDER_ID) {
        Some(pt) => pt.len(),
        None => 0,
    };
    let mut rc = r;
    let mut gc = g;
    let mut hit = false;
    let mut pi: usize = 0;
    while pi < plen
        invariant
            manager.wf(),
            r.wf(),
            g.wf(),
            planes == tbl_or_empty(*manager, STATIONARY_PLANE_COLLIDER_ID),
            plen == planes.len(),
            plen > 0 ==> manager.has_table(STATIONARY_PLANE_COLLIDER_ID),
            pi <= plen,
            rc.wf(),
            gc.wf(),
            (rc, gc, hit) == resolve_planes(r, g, planes, pi as int),
        decreases plen - pi,
    {
        match read_plane_at(manager, pi) {
            Some(p) => {
                let col = Collider::Plane(p);
                if rc.is_colliding(&col) {
                    rc.snap_y(&col);
                    gc.kill_velocity();
                    hit = true;
                }
            },
            None => {},
        }
        pi += 1;
    }
    (rc, gc, hit)
}

/// Overwrite the component an existing entity already has in the
/// table of the component's own type, stated position by position.
fn put_component_at_key(manager: &mut HeliumManager, e: Entity, c: Component)
    requires
        old(manager).wf(),
        crate::component::component_wf(c),
        old(manager).has_table(component_type_id_s(c)),
        kv_contains(old(manager).table(component_type_id_s(c)), e),
    ensures
        ({
            let tid = component_type_id_s(c);
            let prev = old(manager).table(tid);
            let idx = kv_first_index(prev, e);
            &&& final(manager).wf()
            &&& HeliumManager::same_control_state(*old(manager), *final(manager))
            &&& final(manager).render_queue@ == old(manager).render_queue@
            &&& final(manager).ecs_instance.world.entity_count == old(
                manager,
            ).ecs_instance.world.entity_count
            &&& final(manager).ecs_instance.world.num_entities == old(
                manager,
            ).ecs_instance.world.num_entities
            &&& forall|t: u64| #[trigger] final(manager).has_table(t) == old(manager).has_table(t)
            &&& forall|t: u64|
                t != tid && old(manager).has_table(t) ==> #[trigger] final(manager).table(t) == old(
                    manager,
                ).table(t)
            &&& 0 <= idx < prev.len()
            &&& prev[idx].0 == e
            &&& final(manager).table(tid).len() == prev.len()
            &&& forall|j: int|
                0 <= j < prev.len() && j != idx ==> #[trigger] final(manager).table(tid)[j]
                    == prev[j]
            &&& final(manager).table(tid)[idx] == (e, c)
        }),
{
    proof {
        lemma_kv_index_props(old(manager).table(component_type_id_s(c)), e);
        crate::manager::lemma_manager_table_wf(*manager, component_type_id_s(c));
    }
    let ghost tid = component_type_id_s(c);
    let ghost prev = old(manager).table(tid);
    manager.add_component(e, c);
    proof {
        assert(manager.table(tid) == kv_insert(prev, e, c));
    }
}

/// Step the entity at position `k` of the gravity table, carrying
/// the stage invariant forward by one position.
#[verifier::rlimit(100)]
fn process_gravity_entry(manager: &mut HeliumManager, k: usize, Ghost(m0): Ghost<HeliumManager>)
    requires
        tick_inv(m0, *old(manager), k as int),
        k < m0.table(GRAVITY_ID).len(),
    ensures
        tick_inv(m0, *final(manager), k + 1),
{
    let ghost gt0 = m0.table(GRAVITY_ID);
    let ghost rt0 = tbl_or_empty(m0, RECTANGLE_COLLIDER_ID);
    let ghost tt0 = tbl_or_empty(m0, TRANSFORM3D_ID);
    let ghost planes0 = tbl_or_empty(m0, STATIONARY_PLANE_COLLIDER_ID);
    proof {
        crate::manager::lemma_manager_table_wf(m0, GRAVITY_ID);
        if m0.has_table(RECTANGLE_COLLIDER_ID) {
            crate::manager::lemma_manager_table_wf(m0, RECTANGLE_COLLIDER_ID);
        }
        if m0.has_table(TRANSFORM3D_ID) {
            crate::manager::lemma_manager_table_wf(m0, TRANSFORM3D_ID);
        }
        lemma_kv_scan_first(gt0, k as int);
        assert forall|j: int|
            0 <= j < rt0.len() && grav_of(gt0, (#[trigger] rt0[j]).0) is Some implies 0
            <= kv_first_index(gt0, rt0[j].0) < gt0.len() && gt0[kv_first_index(gt0, rt0[j].0)].0
            == rt0[j].0 by {
            lemma_kv_index_props(gt0, rt0[j].0);
        }
        assert forall|j: int|
            0 <= j < tt0.len() && grav_of(gt0, (#[trigger] tt0[j]).0) is Some implies 0
            <= kv_first_index(gt0, tt0[j].0) < gt0.len() && gt0[kv_first_index(gt0, tt0[j].0)].0
            == tt0[j].0 by {
            lemma_kv_index_props(gt0, tt0[j].0);
        }
    }
    let dt = fx_clamp(manager.delta_time);
    let (e, gopt) = read_gravity_entry(manager, k);
    let g0 = match gopt {
        Some(g0) => g0,
        None => {
            proof {
                assert(gravity_after_tick(m0, k as int) == gt0[k as int].1) by {
                    reveal(crate::tick::gravity_after_tick);
                }
            }
            return ;
        },
    };
    let mut g = g0;
    g.update_gravity(dt);
    let ro = read_rect_of(manager, e);
    let to = read_trans_of(manager, e);
    proof {
        if m0.has_table(RECTANGLE_COLLIDER_ID) {
            lemma_kv_parallel(manager.table(RECTANGLE_COLLIDER_ID), rt0, e);
        }
        if m0.has_table(TRANSFORM3D_ID) {
            lemma_kv_parallel(manager.table(TRANSFORM3D_ID), tt0, e);
        }
        assert(rect_of(tbl_or_empty(*manager, RECTANGLE_COLLIDER_ID), e) == rect_of(rt0, e));
        assert(trans_of(tbl_or_empty(*manager, TRANSFORM3D_ID), e) == trans_of(tt0, e));
    }
    let mut r_out: Option<RectangleCollider> = None;
    let mut t_out: Option<Transform3d> = None;
    match (ro, to) {
        (Some(r), Some(t)) => {
            let res = resolve_against_planes(manager, r, g);
            let rc = res.0;
            g = res.1;
            let hit = res.2;
            let mut t2 = t;
            if hit {
                t2.update_position(rc.origin);
            } else {
                t2.add_position(g.velocity.times(dt));
            }
            r_out = Some(rc);
            t_out = Some(t2);
        },
        (None, Some(t)) => {
            let mut t2 = t;
            t2.add_position(g.velocity.times(dt));
            t_out = Some(t2);
        },
        (Some(r), None) => {
            r_out = Some(r);
        },
        (None, None) => {},
    }
    proof {
        let step = entity_step(g0, rect_of(rt0, e), trans_of(tt0, e), planes0, dt as int);
        assert(planes0 == tbl_or_empty(*manager, STATIONARY_PLANE_COLLIDER_ID));
        assert(g == step.0);
        assert(r_out == step.1);
        assert(t_out == step.2);
        if m0.has_table(RECTANGLE_COLLIDER_ID) && kv_contains(rt0, e) {
            lemma_kv_index_props(rt0, e);
            let j = kv_first_index(rt0, e);
            assert(match r_out {
                Some(r2) => rect_after_tick(m0, j) == Component::Rectangle(r2),
                None => rect_after_tick(m0, j) == rt0[j].1,
            }) by {
                reveal(crate::tick::rect_after_tick);
            }
        }
        if m0.has_table(TRANSFORM3D_ID) && kv_contains(tt0, e) {
            lemma_kv_index_props(tt0, e);
            let j = kv_first_index(tt0, e);
            assert(match t_out {
                Some(t2) => trans_after_tick(m0, j) == Component::Transform(t2),
                None => trans_after_tick(m0, j) == tt0[j].1,
            }) by {
                reveal(crate::tick::trans_after_tick);
            }
        }
    }
    proof {
        lemma_kv_scan_first(manager.table(GRAVITY_ID), k as int);
        assert(gravity_after_tick(m0, k as int) == Component::Gravity(g)) by {
            reveal(crate::tick::gravity_after_tick);
        }
    }
    put_component_at_key(manager, e, Component::Gravity(g));
    match r_out {
        Some(r2) => {
            proof {
                lemma_kv_parallel(manager.table(RECTANGLE_COLLIDER_ID), rt0, e);
                assert(rect_after_tick(m0, kv_first_index(rt0, e)) == Component::Rectangle(r2))
                    by {
                    reveal(crate::tick::rect_after_tick);
                }
            }
            put_component_at_key(manager, e, Component::Rectangle(r2));
        },
        None => {},
    }
    match t_out {
        Some(t2) => {
            proof {
                lemma_kv_parallel(manager.table(TRANSFORM3D_ID), tt0, e);
                assert(trans_after_tick(m0, kv_first_index(tt0, e)) == Component::Transform(t2))
                    by {
                    reveal(crate::tick::trans_after_tick);
                }
            }
            put_component_at_key(manager, e, Component::Transform(t2));
        },
        None => {},
    }
}

/// Stages two and three of the tick: integrate gravity for every
/// entity that carries it, resolve its box against every stationary
/// plane (snapping along Y and zeroing the velocity on contact), and
/// write the resulting motion into its transform. Each entity's new
/// components are a function of its own components and the plane
/// table at the start of the call, exactly as `entity_step` states;
/// a missing gravity table makes the whole call a no-op.
pub fn handle_gravity_collisions(manager: &mut HeliumManager)
    requires
        old(manager).wf(),
    ensures
        final(manager).wf(),
        HeliumManager::same_control_state(*old(manager), *final(manager)),
        final(manager).render_queue@ == old(manager).render_queue@,
        final(manager).ecs_instance.world.entity_count == old(
            manager,
        ).ecs_instance.world.entity_count,
        final(manager).ecs_instance.world.num_entities == old(
            manager,
        ).ecs_instance.world.num_entities,
        !old(manager).has_table(GRAVITY_ID) ==> *final(manager) == *old(manager),
        forall|t: u64| #[trigger] final(manager).has_table(t) == old(manager).has_table(t),
        forall|t: u64|
            t != GRAVITY_ID && t != RECTANGLE_COLLIDER_ID && t != TRANSFORM3D_ID && old(
                manager,
            ).has_table(t) ==> #[trigger] final(manager).table(t) == old(manager).table(t),
        old(manager).has_table(GRAVITY_ID) ==> {
            let gt0 = old(manager).table(GRAVITY_ID);
            &&& final(manager).table(GRAVITY_ID).len() == gt0.len()
            &&& forall|j: int|
                0 <= j < gt0.len() ==> (#[trigger] final(manager).table(GRAVITY_ID)[j]).0
                    == gt0[j].0
            &&& forall|j: int|
                0 <= j < gt0.len() ==> (#[trigger] final(manager).table(GRAVITY_ID)[j]).1
                    == gravity_after_tick(*old(manager), j)
        },
        old(manager).has_table(GRAVITY_ID) && old(manager).has_table(RECTANGLE_COLLIDER_ID) ==> {
            let rt0 = old(manager).table(RECTANGLE_COLLIDER_ID);
            &&& final(manager).table(RECTANGLE_COLLIDER_ID).len() == rt0.len()
            &&& forall|j: int|
                0 <= j < rt0.len() ==> (#[trigger] final(manager).table(RECTANGLE_COLLIDER_ID)[j]).0
                    == rt0[j].0
            &&& forall|j: int|
                0 <= j < rt0.len() ==> (#[trigger] final(manager).table(RECTANGLE_COLLIDER_ID)[j]).1
                    == rect_after_tick(*old(manager), j)
        },
        old(manager).has_table(GRAVITY_ID) && old(manager).has_table(TRANSFORM3D_ID) ==> {
            let tt0 = old(manager).table(TRANSFORM3D_ID);
            &&& final(manager).table(TRANSFORM3D_ID).len() == tt0.len()
            &&& forall|j: int|
                0 <= j < tt0.len() ==> (#[trigger] final(manager).table(TRANSFORM3D_ID)[j]).0
                    == tt0[j].0
            &&& forall|j: int|
                0 <= j < tt0.len() ==> (#[trigger] final(manager).table(TRANSFORM3D_ID)[j]).1
                    == trans_after_tick(*old(manager), j)
        },
{
    let ghost m0 = *old(manager);
    let glen = match manager.query(GRAVITY_ID) {
        Some(t) => t.len(),
        None => {
            return ;
        },
    };
    let mut k: usize = 0;
    while k < glen
        invariant
            tick_inv(m0, *manager, k as int),
            glen == m0.table(GRAVITY_ID).len(),
            k <= glen,
        decreases glen - k,
    {
        process_gravity_entry(manager, k, Ghost(m0));
        k += 1;
    }
    proof {
        let gt0 = m0.table(GRAVITY_ID);
        if m0.has_table(RECTANGLE_COLLIDER_ID) {
            let rt0 = m0.table(RECTANGLE_COLLIDER_ID);
            assert forall|j: int| 0 <= j < rt0.len() implies (#[trigger] manager.table(
                RECTANGLE_COLLIDER_ID,
            )[j]).1 == rect_after_tick(m0, j) by {
                reveal(crate::tick::rect_after_tick);
                if grav_of(gt0, rt0[j].0) is Some {
                    lemma_kv_index_props(gt0, rt0[j].0);
                }
            }
        }
        if m0.has_table(TRANSFORM3D_ID) {
            let tt0 = m0.table(TRANSFORM3D_ID);
            assert forall|j: int| 0 <= j < tt0.len() implies (#[trigger] manager.table(
                TRANSFORM3D_ID,
            )[j]).1 == trans_after_tick(m0, j) by {
                reveal(crate::tick::trans_after_tick);
                if grav_of(gt0, tt0[j].0) is Some {
                    lemma_kv_index_props(gt0, tt0[j].0);
                }
            }
        }
    }
}

/// The camera of an entity, when its entry carries one.
pub open spec fn cam_of(s: Seq<(Entity, Component)>, e: Entity) -> Option<Camera3d> {
    if kv_contains(s, e) {
        match kv_get(s, e) {
            Component::Camera(c) => Some(c),
            _ => None,
        }
    } else {
        None
    }
}

/// The light of an entity, when its entry carries one.
pub open spec fn light_of(s: Seq<(Entity, Component)>, e: Entity) -> Option<crate::light::Light> {
    if kv_contains(s, e) {
        match kv_get(s, e) {
            Component::Light(l) => Some(l),
            _ => None,
        }
    } else {
        None
    }
}

/// The transform entry at position `j`, when it is dirty.
pub open spec fn dirty_at(tt: Seq<(Entity, Component)>, j: int) -> Option<Transform3d> {
    match tt[j].1 {
        Component::Transform(t) => if t.update_flag {
            Some(t)
        } else {
            None
        },
        _ => None,
    }
}

/// The render commands one dirty transform produces: an instance
/// update when the entity has a linked model, then a light update
/// when it carries a light.
pub open spec fn sync_cmds(m: HeliumManager, e: Entity, t: Transform3d) -> Seq<RenderCommand> {
    let inst: Seq<RenderCommand> = match m.model_index_of(e) {
        Some(idx) => seq![
            RenderCommand::UpdateInstance {
                object_index: idx,
                position: t.position,
                rotation: t.rotation,
            },
        ],
        None => Seq::empty(),
    };
    let light: Seq<RenderCommand> = match light_of(tbl_or_empty(m, LIGHT_ID), e) {
        Some(l) => seq![
            RenderCommand::UpdateLight(crate::light::Light { position: t.position, ..l }),
        ],
        None => Seq::empty(),
    };
    inst + light
}

/// All render commands the first `n` transform entries produce.
pub open spec fn sync_queue(m: HeliumManager, n: int) -> Seq<RenderCommand>
    decreases n,
{
    let tt = tbl_or_empty(m, TRANSFORM3D_ID);
    if n <= 0 {
        Seq::empty()
    } else {
        sync_queue(m, n - 1) + (match dirty_at(tt, n - 1) {
            Some(t) => sync_cmds(m, tt[n - 1].0, t),
            None => Seq::empty(),
        })
    }
}

/// The transform the sync leaves at position `j`: a dirty flag is
/// cleared, everything else stays.
#[verifier::opaque]
pub open spec fn trans_sync_after(m: HeliumManager, j: int) -> Component {
    let tt = m.table(TRANSFORM3D_ID);
    match dirty_at(tt, j) {
        Some(t) => Component::Transform(Transform3d { update_flag: false, ..t }),
        None => tt[j].1,
    }
}

/// The camera the sync leaves at position `j`: an entity with a
/// dirty transform has its camera eye moved to the new position.
#[verifier::opaque]
pub open spec fn cam_sync_after(m: HeliumManager, j: int) -> Component {
    let ct = m.table(CAMERA3D_ID);
    let e = ct[j].0;
    match trans_of(tbl_or_empty(m, TRANSFORM3D_ID), e) {
        Some(t) => if t.update_flag {
            match ct[j].1 {
                Component::Camera(c) => Component::Camera(
                    Camera3d { eye: t.position, update_flag: true, ..c },
                ),
                c => c,
            }
        } else {
            ct[j].1
        },
        None => ct[j].1,
    }
}

/// The box collider the sync leaves at position `j`: an entity with
/// a dirty transform has its collider recentred on the new position.
#[verifier::opaque]
pub open spec fn rect_sync_after(m: HeliumManager, j: int) -> Component {
    let rt = m.table(RECTANGLE_COLLIDER_ID);
    let e = rt[j].0;
    match trans_of(tbl_or_empty(m, TRANSFORM3D_ID), e) {
        Some(t) => if t.update_flag {
            match rt[j].1 {
                Component::Rectangle(r) => Component::Rectangle(
                    RectangleCollider { origin: t.position, ..r },
                ),
                c => c,
            }
        } else {
            rt[j].1
        },
        None => rt[j].1,
    }
}

/// The light the sync leaves at position `j`: an entity with a dirty
/// transform has its light moved to the new position.
#[verifier::opaque]
pub open spec fn light_sync_after(m: HeliumManager, j: int) -> Component {
    let lt = m.table(LIGHT_ID);
    let e = lt[j].0;
    match trans_of(tbl_or_empty(m, TRANSFORM3D_ID), e) {
        Some(t) => if t.update_flag {
            match lt[j].1 {
                Component::Light(l) => Component::Light(
                    crate::light::Light { position: t.position, ..l },
                ),
                c => c,
            }
        } else {
            lt[j].1
        },
        None => lt[j].1,
    }
}

/// The state the renderer-sync stage maintains while it walks the
/// transform table.
pub open spec fn sync_inv(m0: HeliumManager, m: HeliumManager, k: int) -> bool {
    let tt0 = m0.table(TRANSFORM3D_ID);
    let ct0 = tbl_or_empty(m0, CAMERA3D_ID);
    let rt0 = tbl_or_empty(m0, RECTANGLE_COLLIDER_ID);
    let lt0 = tbl_or_empty(m0, LIGHT_ID);
    &&& m0.wf()
    &&& m0.has_table(TRANSFORM3D_ID)
    &&& m.wf()
    &&& 0 <= k <= tt0.len()
    &&& HeliumManager::same_control_state(m0, m)
    &&& m.render_queue@ == m0.render_queue@ + sync_queue(m0, k)
    &&& m.ecs_instance.world.entity_count == m0.ecs_instance.world.entity_count
    &&& m.ecs_instance.world.num_entities == m0.ecs_instance.world.num_entities
    &&& forall|t: u64| #[trigger] m.has_table(t) == m0.has_table(t)
    &&& forall|t: u64|
        t != TRANSFORM3D_ID && t != CAMERA3D_ID && t != RECTANGLE_COLLIDER_ID && t != LIGHT_ID
            && m0.has_table(t) ==> #[trigger] m.table(t) == m0.table(t)
    &&& m.table(TRANSFORM3D_ID).len() == tt0.len()
    &&& forall|j: int| 0 <= j < tt0.len() ==> (#[trigger] m.table(TRANSFORM3D_ID)[j]).0 == tt0[j].0
    &&& forall|j: int|
        k <= j < tt0.len() ==> (#[trigger] m.table(TRANSFORM3D_ID)[j]).1 == tt0[j].1
    &&& forall|j: int|
        0 <= j < k ==> (#[trigger] m.table(TRANSFORM3D_ID)[j]).1 == trans_sync_after(m0, j)
    &&& m0.has_table(CAMERA3D_ID) ==> {
        &&& m.table(CAMERA3D_ID).len() == ct0.len()
        &&& forall|j: int| 0 <= j < ct0.len() ==> (#[trigger] m.table(CAMERA3D_ID)[j]).0 == ct0[j].0
        &&& forall|j: int|
            0 <= j < ct0.len() ==> (#[trigger] m.table(CAMERA3D_ID)[j]).1 == (if kv_contains(
                tt0,
                ct0[j].0,
            ) && 0 <= kv_first_index(tt0, ct0[j].0) < k {
                cam_sync_after(m0, j)
            } else {
                ct0[j].1
            })
    }
    &&& m0.has_table(RECTANGLE_COLLIDER_ID) ==> {
        &&& m.table(RECTANGLE_COLLIDER_ID).len() == rt0.len()
        &&& forall|j: int|
            0 <= j < rt0.len() ==> (#[trigger] m.table(RECTANGLE_COLLIDER_ID)[j]).0 == rt0[j].0
        &&& forall|j: int|
            0 <= j < rt0.len() ==> (#[trigger] m.table(RECTANGLE_COLLIDER_ID)[j]).1 == (
            if kv_contains(tt0, rt0[j].0) && 0 <= kv_first_index(tt0, rt0[j].0) < k {
                rect_sync_after(m0, j)
            } else {
                rt0[j].1
            })
    }
    &&& m0.has_table(LIGHT_ID) ==> {
        &&& m.table(LIGHT_ID).len() == lt0.len()
        &&& forall|j: int| 0 <= j < lt0.len() ==> (#[trigger] m.table(LIGHT_ID)[j]).0 == lt0[j].0
        &&& forall|j: int|
            0 <= j < lt0.len() ==> (#[trigger] m.table(LIGHT_ID)[j]).1 == (if kv_contains(
                tt0,
                lt0[j].0,
            ) && 0 <= kv_first_index(tt0, lt0[j].0) < k {
                light_sync_after(m0, j)
            } else {
                lt0[j].1
            })
    }
}

/// Sync the transform at position `k`, carrying the stage invariant
/// forward by one position.
#[verifier::rlimit(100)]
fn sync_transform_entry(manager: &mut HeliumManager, k: usize, Ghost(m0): Ghost<HeliumManager>)
    requires
        sync_inv(m0, *old(manager), k as int),
        k < m0.table(TRANSFORM3D_ID).len(),
    ensures
        sync_inv(m0, *final(manager), k + 1),
{
    let ghost tt0 = m0.table(TRANSFORM3D_ID);
    let ghost ct0 = tbl_or_empty(m0, CAMERA3D_ID);
    let ghost rt0 = tbl_or_empty(m0, RECTANGLE_COLLIDER_ID);
    let ghost lt0 = tbl_or_empty(m0, LIGHT_ID);
    proof {
        crate::manager::lemma_manager_table_wf(m0, TRANSFORM3D_ID);
        if m0.has_table(CAMERA3D_ID) {
            crate::manager::lemma_manager_table_wf(m0, CAMERA3D_ID);
        }
        if m0.has_table(RECTANGLE_COLLIDER_ID) {
            crate::manager::lemma_manager_table_wf(m0, RECTANGLE_COLLIDER_ID);
        }
        if m0.has_table(LIGHT_ID) {
            crate::manager::lemma_manager_table_wf(m0, LIGHT_ID);
        }
        lemma_kv_scan_first(tt0, k as int);
        assert forall|j: int|
            0 <= j < ct0.len() && kv_contains(tt0, (#[trigger] ct0[j]).0) implies 0
            <= kv_first_index(tt0, ct0[j].0) < tt0.len() && tt0[kv_first_index(tt0, ct0[j].0)].0
            == ct0[j].0 by {
            lemma_kv_index_props(tt0, ct0[j].0);
        }
        assert forall|j: int|
            0 <= j < rt0.len() && kv_contains(tt0, (#[trigger] rt0[j]).0) implies 0
            <= kv_first_index(tt0, rt0[j].0) < tt0.len() && tt0[kv_first_index(tt0, rt0[j].0)].0
            == rt0[j].0 by {
            lemma_kv_index_props(tt0, rt0[j].0);
        }
        assert forall|j: int|
            0 <= j < lt0.len() && kv_contains(tt0, (#[trigger] lt0[j]).0) implies 0
            <= kv_first_index(tt0, lt0[j].0) < tt0.len() && tt0[kv_first_index(tt0, lt0[j].0)].0
            == lt0[j].0 by {
            lemma_kv_index_props(tt0, lt0[j].0);
        }
    }
    let (e, topt) = {
        let tbl = match manager.query(TRANSFORM3D_ID) {
            Some(t) => t,
            None => {
                proof {
                    assert(false);
                }
                unreached()
            },
        };
        let e = tbl.entity_at(k);
        let tv = match tbl.value_at(k) {
            Component::Transform(t) => Some(*t),
            _ => None,
        };
        (e, tv)
    };
    let t = match topt {
        Some(t) => t,
        None => {
            proof {
                assert(trans_sync_after(m0, k as int) == tt0[k as int].1) by {
                    reveal(crate::tick::trans_sync_after);
                }
                assert(sync_queue(m0, k + 1) =~= sync_queue(m0, k as int));
                assert forall|j: int|
                    0 <= j < ct0.len() && kv_contains(tt0, (#[trigger] ct0[j]).0)
                        && kv_first_index(tt0, ct0[j].0) == k implies cam_sync_after(m0, j)
                    == ct0[j].1 by {
                    reveal(crate::tick::cam_sync_after);
                    lemma_kv_index_props(tt0, ct0[j].0);
                }
                assert forall|j: int|
                    0 <= j < rt0.len() && kv_contains(tt0, (#[trigger] rt0[j]).0)
                        && kv_first_index(tt0, rt0[j].0) == k implies rect_sync_after(m0, j)
                    == rt0[j].1 by {
                    reveal(crate::tick::rect_sync_after);
                    lemma_kv_index_props(tt0, rt0[j].0);
                }
                assert forall|j: int|
                    0 <= j < lt0.len() && kv_contains(tt0, (#[trigger] lt0[j]).0)
                        && kv_first_index(tt0, lt0[j].0) == k implies light_sync_after(m0, j)
                    == lt0[j].1 by {
                    reveal(crate::tick::light_sync_after);
                    lemma_kv_index_props(tt0, lt0[j].0);
                }
            }
            return ;
        },
    };
    if !t.get_update_flag() {
        proof {
            assert(trans_sync_after(m0, k as int) == tt0[k as int].1) by {
                reveal(crate::tick::trans_sync_after);
            }
            assert(sync_queue(m0, k + 1) =~= sync_queue(m0, k as int));
            assert forall|j: int|
                0 <= j < ct0.len() && kv_contains(tt0, (#[trigger] ct0[j]).0)
                    && kv_first_index(tt0, ct0[j].0) == k implies cam_sync_after(m0, j)
                == ct0[j].1 by {
                reveal(crate::tick::cam_sync_after);
                lemma_kv_index_props(tt0, ct0[j].0);
            }
            assert forall|j: int|
                0 <= j < rt0.len() && kv_contains(tt0, (#[trigger] rt0[j]).0)
                    && kv_first_index(tt0, rt0[j].0) == k implies rect_sync_after(m0, j)
                == rt0[j].1 by {
                reveal(crate::tick::rect_sync_after);
                lemma_kv_index_props(tt0, rt0[j].0);
            }
            assert forall|j: int|
                0 <= j < lt0.len() && kv_contains(tt0, (#[trigger] lt0[j]).0)
                    && kv_first_index(tt0, lt0[j].0) == k implies light_sync_after(m0, j)
                == lt0[j].1 by {
                reveal(crate::tick::light_sync_after);
                lemma_kv_index_props(tt0, lt0[j].0);
            }
        }
        return ;
    }
    proof {
        assert(trans_of(tbl_or_empty(m0, TRANSFORM3D_ID), e) == Some(t));
    }
    // Instance update for a linked model.
    let midx = read_model_index(manager, e);
    proof {
        assert(manager.model_index_of(e) == m0.model_index_of(e));
    }
    match midx {
        Some(object_index) => {
            push_command(
                manager,
                RenderCommand::UpdateInstance {
                    object_index,
                    position: t.position,
                    rotation: t.rotation,
                },
            );
        },
        None => {},
    }
    // Move the camera eye.
    let copt = read_cam_of(manager, e);
    match copt {
        Some(mut c) => {
            proof {
                lemma_kv_parallel(manager.table(CAMERA3D_ID), ct0, e);
                lemma_kv_index_props(ct0, e);
                assert(manager.table(CAMERA3D_ID)[kv_first_index(ct0, e)].1 == ct0[kv_first_index(
                    ct0,
                    e,
                )].1);
                assert(ct0[kv_first_index(ct0, e)].1 == Component::Camera(c));
                assert(cam_sync_after(m0, kv_first_index(ct0, e)) == Component::Camera(
                    Camera3d { eye: t.position, update_flag: true, ..c },
                )) by {
                    reveal(crate::tick::cam_sync_after);
                }
                lemma_kv_index_props(m0.ecs_instance.world.component_maps@, CAMERA3D_ID);
            }
            c.set_position(t.position);
            put_component_at_key(manager, e, Component::Camera(c));
        },
        None => {
            proof {
                if m0.has_table(CAMERA3D_ID) {
                    lemma_kv_parallel(manager.table(CAMERA3D_ID), ct0, e);
                    if kv_contains(ct0, e) {
                        lemma_kv_index_props(ct0, e);
                        assert(cam_sync_after(m0, kv_first_index(ct0, e)) == ct0[kv_first_index(
                            ct0,
                            e,
                        )].1) by {
                            reveal(crate::tick::cam_sync_after);
                        }
                    }
                }
            }
        },
    }
    // Recentre the box collider.
    let ropt = read_rect_of(manager, e);
    match ropt {
        Some(mut r) => {
            proof {
                lemma_kv_parallel(manager.table(RECTANGLE_COLLIDER_ID), rt0, e);
                lemma_kv_index_props(rt0, e);
                assert(rect_sync_after(m0, kv_first_index(rt0, e)) == Component::Rectangle(
                    RectangleCollider { origin: t.position, ..r },
                )) by {
                    reveal(crate::tick::rect_sync_after);
                }
                lemma_kv_index_props(m0.ecs_instance.world.component_maps@, RECTANGLE_COLLIDER_ID);
            }
            r.set_origin(&t.position);
            put_component_at_key(manager, e, Component::Rectangle(r));
        },
        None => {
            proof {
                if m0.has_table(RECTANGLE_COLLIDER_ID) {
                    lemma_kv_parallel(manager.table(RECTANGLE_COLLIDER_ID), rt0, e);
                    if kv_contains(rt0, e) {
                        lemma_kv_index_props(rt0, e);
                        assert(rect_sync_after(m0, kv_first_index(rt0, e)) == rt0[kv_first_index(
                            rt0,
                            e,
                        )].1) by {
                            reveal(crate::tick::rect_sync_after);
                        }
                    }
                }
            }
        },
    }
    // Move the light and queue its renderer update.
    let lopt = read_light_of(manager, e);
    match lopt {
        Some(mut l) => {
            proof {
                lemma_kv_parallel(manager.table(LIGHT_ID), lt0, e);
                lemma_kv_index_props(lt0, e);
                assert(light_sync_after(m0, kv_first_index(lt0, e)) == Component::Light(
                    crate::light::Light { position: t.position, ..l },
                )) by {
                    reveal(crate::tick::light_sync_after);
                }
                lemma_kv_index_props(m0.ecs_instance.world.component_maps@, LIGHT_ID);
            }
            l.update_position(&t.position);
            put_component_at_key(manager, e, Component::Light(l));
            push_command(manager, RenderCommand::UpdateLight(l));
        },
        None => {
            proof {
                if m0.has_table(LIGHT_ID) {
                    lemma_kv_parallel(manager.table(LIGHT_ID), lt0, e);
                    if kv_contains(lt0, e) {
                        lemma_kv_index_props(lt0, e);
                        assert(light_sync_after(m0, kv_first_index(lt0, e)) == lt0[kv_first_index(
                            lt0,
                            e,
                        )].1) by {
                            reveal(crate::tick::light_sync_after);
                        }
                    }
                }
            }
        },
    }
    // Clear the dirty flag.
    let mut t2 = t;
    t2.update();
    proof {
        lemma_kv_parallel(manager.table(TRANSFORM3D_ID), tt0, e);
        assert(trans_sync_after(m0, k as int) == Component::Transform(t2)) by {
            reveal(crate::tick::trans_sync_after);
        }
    }
    put_component_at_key(manager, e, Component::Transform(t2));
    proof {
        assert(manager.render_queue@ =~= m0.render_queue@ + sync_queue(m0, k + 1));
    }
}

/// Queue one render command, touching nothing else.
fn push_command(manager: &mut HeliumManager, cmd: RenderCommand)
    ensures
        final(manager).render_queue@ == old(manager).render_queue@.push(cmd),
        final(manager).ecs_instance == old(manager).ecs_instance,
        HeliumManager::same_control_state(*old(manager), *final(manager)),
        old(manager).wf() ==> final(manager).wf(),
        forall|t: u64| #[trigger] final(manager).has_table(t) == old(manager).has_table(t),
        forall|t: u64| #[trigger] final(manager).table(t) == old(manager).table(t),
{
    manager.render_queue.push(cmd);
    proof {
        lemma_same_tables(*old(manager), *manager);
    }
}

/// Stage four of the tick: push every dirty transform to the
/// renderer, mirror the new position into any camera, box collider
/// and light of the same entity, and clear the dirty flags. The
/// commands queued are exactly `sync_queue` over the whole transform
/// table; a missing transform table makes the call a no-op.
pub fn update_transforms_to_renderer(manager: &mut HeliumManager)
    requires
        old(manager).wf(),
    ensures
        final(manager).wf(),
        HeliumManager::same_control_state(*old(manager), *final(manager)),
        !old(manager).has_table(TRANSFORM3D_ID) ==> *final(manager) == *old(manager),
        forall|t: u64| #[trigger] final(manager).has_table(t) == old(manager).has_table(t),
        old(manager).has_table(TRANSFORM3D_ID) ==> {
            let tt0 = old(manager).table(TRANSFORM3D_ID);
            &&& final(manager).render_queue@ == old(manager).render_queue@ + sync_queue(
                *old(manager),
                tt0.len() as int,
            )
            &&& final(manager).table(TRANSFORM3D_ID).len() == tt0.len()
            &&& forall|j: int|
                0 <= j < tt0.len() ==> (#[trigger] final(manager).table(TRANSFORM3D_ID)[j]).0
                    == tt0[j].0
            &&& forall|j: int|
                0 <= j < tt0.len() ==> (#[trigger] final(manager).table(TRANSFORM3D_ID)[j]).1
                    == trans_sync_after(*old(manager), j)
            &&& forall|t: u64|
                t != TRANSFORM3D_ID && t != CAMERA3D_ID && t != RECTANGLE_COLLIDER_ID && t
                    != LIGHT_ID && old(manager).has_table(t) ==> #[trigger] final(manager).table(t)
                    == old(manager).table(t)
            &&& old(manager).has_table(CAMERA3D_ID) ==> {
                let ct0 = old(manager).table(CAMERA3D_ID);
                &&& final(manager).table(CAMERA3D_ID).len() == ct0.len()
                &&& forall|j: int|
                    0 <= j < ct0.len() ==> (#[trigger] final(manager).table(CAMERA3D_ID)[j]).0
                        == ct0[j].0
                &&& forall|j: int|
                    0 <= j < ct0.len() ==> (#[trigger] final(manager).table(CAMERA3D_ID)[j]).1 == (
                    if kv_contains(tt0, ct0[j].0) {
                        cam_sync_after(*old(manager), j)
                    } else {
                        ct0[j].1
                    })
            }
            &&& old(manager).has_table(RECTANGLE_COLLIDER_ID) ==> {
                let rt0 = old(manager).table(RECTANGLE_COLLIDER_ID);
                &&& final(manager).table(RECTANGLE_COLLIDER_ID).len() == rt0.len()
                &&& forall|j: int|
                    0 <= j < rt0.len() ==> (#[trigger] final(manager).table(
                        RECTANGLE_COLLIDER_ID,
                    )[j]).0 == rt0[j].0
                &&& forall|j: int|
                    0 <= j < rt0.len() ==> (#[trigger] final(manager).table(
                        RECTANGLE_COLLIDER_ID,
                    )[j]).1 == (if kv_contains(tt0, rt0[j].0) {
                        rect_sync_after(*old(manager), j)
                    } else {
                        rt0[j].1
                    })
            }
            &&& old(manager).has_table(LIGHT_ID) ==> {
                let lt0 = old(manager).table(LIGHT_ID);
                &&& final(manager).table(LIGHT_ID).len() == lt0.len()
                &&& forall|j: int|
                    0 <= j < lt0.len() ==> (#[trigger] final(manager).table(LIGHT_ID)[j]).0
                        == lt0[j].0
                &&& forall|j: int|
                    0 <= j < lt0.len() ==> (#[trigger] final(manager).table(LIGHT_ID)[j]).1 == (
                    if kv_contains(tt0, lt0[j].0) {
                        light_sync_after(*old(manager), j)
                    } else {
                        lt0[j].1
                    })
            }
        },
{
    let ghost m0 = *old(manager);
    let tlen = match manager.query(TRANSFORM3D_ID) {
        Some(t) => t.len(),
        None => {
            return ;
        },
    };
    proof {
        assert(manager.render_queue@ =~= m0.render_queue@ + sync_queue(m0, 0));
    }
    let mut k: usize = 0;
    while k < tlen
        invariant
            sync_inv(m0, *manager, k as int),
            tlen == m0.table(TRANSFORM3D_ID).len(),
            k <= tlen,
        decreases tlen - k,
    {
        sync_transform_entry(manager, k, Ghost(m0));
        k += 1;
    }
    proof {
        let tt0 = m0.table(TRANSFORM3D_ID);
        if m0.has_table(CAMERA3D_ID) {
            let ct0 = m0.table(CAMERA3D_ID);
            assert forall|j: int| 0 <= j < ct0.len() && kv_contains(tt0, ct0[j].0) implies 0
                <= kv_first_index(tt0, (#[trigger] ct0[j]).0) < tt0.len() by {
                lemma_kv_index_props(tt0, ct0[j].0);
            }
        }
        if m0.has_table(RECTANGLE_COLLIDER_ID) {
            let rt0 = m0.table(RECTANGLE_COLLIDER_ID);
            assert forall|j: int| 0 <= j < rt0.len() && kv_contains(tt0, rt0[j].0) implies 0
                <= kv_first_index(tt0, (#[trigger] rt0[j]).0) < tt0.len() by {
                lemma_kv_index_props(tt0, rt0[j].0);
            }
        }
        if m0.has_table(LIGHT_ID) {
            let lt0 = m0.table(LIGHT_ID);
            assert forall|j: int| 0 <= j < lt0.len() && kv_contains(tt0, lt0[j].0) implies 0
                <= kv_first_index(tt0, (#[trigger] lt0[j]).0) < tt0.len() by {
                lemma_kv_index_props(tt0, lt0[j].0);
            }
        }
    }
}

/// The camera controller of an entity, when its entry carries one.
pub open spec fn ctrl_of(s: Seq<(Entity, Component)>, e: Entity) -> Option<
    crate::camera::CameraController,
> {
    if kv_contains(s, e) {
        match kv_get(s, e) {
            Component::Controller(c) => Some(c),
            _ => None,
        }
    } else {
        None
    }
}

/// A camera after both pending rotation intents: first yaw around
/// the camera's up axis, then pitch around the right-hand axis of
/// the turned camera.
pub open spec fn cam_after_intents(
    c: Camera3d,
    ctl: crate::camera::CameraController,
) -> Camera3d {
    let c1 = crate::camera::cam_turn_s(c, c.up, cl(-ctl.delta.0));
    crate::camera::cam_turn_s(
        c1,
        crate::vec3::v3_cross_s(crate::vec3::v3_normalize_s(c1.target), c1.up),
        cl(-ctl.delta.1),
    )
}

/// A transform after the four held movement intents, relative to the
/// turned camera's frame.
pub open spec fn ctrl_trans_after_s(
    t: Transform3d,
    c2: Camera3d,
    ctl: crate::camera::CameraController,
    dt: int,
) -> Transform3d {
    let f = crate::vec3::v3_normalize_s(c2.target);
    let fstep = crate::camera::cam_step_s(f, dt);
    let t1 = if ctl.forward {
        Transform3d { position: v3_plus_s(t.position, fstep), rotation: t.rotation, update_flag: true }
    } else {
        t
    };
    let t2 = if ctl.backward {
        Transform3d {
            position: v3_plus_s(t1.position, crate::vec3::v3_neg_s(fstep)),
            rotation: t1.rotation,
            update_flag: true,
        }
    } else {
        t1
    };
    let right = crate::vec3::v3_cross_s(f, c2.up);
    let rstep = crate::camera::cam_step_s(right, dt);
    let t3 = if ctl.left {
        Transform3d {
            position: v3_plus_s(t2.position, crate::vec3::v3_neg_s(rstep)),
            rotation: t2.rotation,
            update_flag: true,
        }
    } else {
        t2
    };
    if ctl.right {
        Transform3d {
            position: v3_plus_s(t3.position, rstep),
            rotation: t3.rotation,
            update_flag: true,
        }
    } else {
        t3
    }
}

/// The controller the camera stage leaves at position `j`: its
/// deltas are consumed exactly when the entity has a camera.
#[verifier::opaque]
pub open spec fn ctl_after_cams(m: HeliumManager, j: int) -> Component {
    let ct = m.table(CAMERA_CONTROLLER_ID);
    let e = ct[j].0;
    match ct[j].1 {
        Component::Controller(ctl) => {
            match cam_of(tbl_or_empty(m, CAMERA3D_ID), e) {
                Some(_) => Component::Controller(
                    crate::camera::CameraController { delta: (0, 0), ..ctl },
                ),
                None => ct[j].1,
            }
        },
        _ => ct[j].1,
    }
}

/// The camera the camera stage leaves at position `j`: turned by the
/// entity's controller intents, when it has a controller.
#[verifier::opaque]
pub open spec fn cam_after_cams(m: HeliumManager, j: int) -> Component {
    let kt = m.table(CAMERA3D_ID);
    let e = kt[j].0;
    match ctrl_of(tbl_or_empty(m, CAMERA_CONTROLLER_ID), e) {
        Some(ctl) => {
            match kt[j].1 {
                Component::Camera(c) => Component::Camera(cam_after_intents(c, ctl)),
                c => c,
            }
        },
        None => kt[j].1,
    }
}

/// The transform the camera stage leaves at position `j`: moved by
/// the held movement intents, when the entity has both a controller
/// and a camera.
#[verifier::opaque]
pub open spec fn trans_after_cams(m: HeliumManager, j: int) -> Component {
    let tt = m.table(TRANSFORM3D_ID);
    let e = tt[j].0;
    match ctrl_of(tbl_or_empty(m, CAMERA_CONTROLLER_ID), e) {
        Some(ctl) => {
            match cam_of(tbl_or_empty(m, CAMERA3D_ID), e) {
                Some(c) => {
                    match tt[j].1 {
                        Component::Transform(t) => Component::Transform(
                            ctrl_trans_after_s(
                                t,
                                cam_after_intents(c, ctl),
                                ctl,
                                cl(m.delta_time as int),
                            ),
                        ),
                        c2 => c2,
                    }
                },
                None => tt[j].1,
            }
        },
        None => tt[j].1,
    }
}

/// The camera updates the first `n` controller entries queue.
pub open spec fn cams_queue(m: HeliumManager, n: int) -> Seq<RenderCommand>
    decreases n,
{
    let ct = tbl_or_empty(m, CAMERA_CONTROLLER_ID);
    if n <= 0 {
        Seq::empty()
    } else {
        cams_queue(m, n - 1) + (match ct[n - 1].1 {
            Component::Controller(ctl) => {
                match cam_of(tbl_or_empty(m, CAMERA3D_ID), ct[n - 1].0) {
                    Some(c) => seq![RenderCommand::UpdateCamera(cam_after_intents(c, ctl))],
                    None => Seq::empty(),
                }
            },
            _ => Seq::empty(),
        })
    }
}

/// The state the camera stage maintains while it walks the
/// controller table.
pub open spec fn cams_inv(m0: HeliumManager, m: HeliumManager, k: int) -> bool {
    let ct0 = m0.table(CAMERA_CONTROLLER_ID);
    let kt0 = tbl_or_empty(m0, CAMERA3D_ID);
    let tt0 = tbl_or_empty(m0, TRANSFORM3D_ID);
    &&& m0.wf()
    &&& m0.has_table(CAMERA_CONTROLLER_ID)
    &&& m.wf()
    &&& 0 <= k <= ct0.len()
    &&& HeliumManager::same_control_state(m0, m)
    &&& m.render_queue@ == m0.render_queue@ + cams_queue(m0, k)
    &&& m.ecs_instance.world.entity_count == m0.ecs_instance.world.entity_count
    &&& m.ecs_instance.world.num_entities == m0.ecs_instance.world.num_entities
    &&& forall|t: u64| #[trigger] m.has_table(t) == m0.has_table(t)
    &&& forall|t: u64|
        t != CAMERA_CONTROLLER_ID && t != CAMERA3D_ID && t != TRANSFORM3D_ID && m0.has_table(t)
            ==> #[trigger] m.table(t) == m0.table(t)
    &&& m.table(CAMERA_CONTROLLER_ID).len() == ct0.len()
    &&& forall|j: int|
        0 <= j < ct0.len() ==> (#[trigger] m.table(CAMERA_CONTROLLER_ID)[j]).0 == ct0[j].0
    &&& forall|j: int|
        k <= j < ct0.len() ==> (#[trigger] m.table(CAMERA_CONTROLLER_ID)[j]).1 == ct0[j].1
    &&& forall|j: int|
        0 <= j < k ==> (#[trigger] m.table(CAMERA_CONTROLLER_ID)[j]).1 == ctl_after_cams(m0, j)
    &&& m0.has_table(CAMERA3D_ID) ==> {
        &&& m.table(CAMERA3D_ID).len() == kt0.len()
        &&& forall|j: int| 0 <= j < kt0.len() ==> (#[trigger] m.table(CAMERA3D_ID)[j]).0 == kt0[j].0
        &&& forall|j: int|
            0 <= j < kt0.len() ==> (#[trigger] m.table(CAMERA3D_ID)[j]).1 == (if kv_contains(
                ct0,
                kt0[j].0,
            ) && 0 <= kv_first_index(ct0, kt0[j].0) < k {
                cam_after_cams(m0, j)
            } else {
                kt0[j].1
            })
    }
    &&& m0.has_table(TRANSFORM3D_ID) ==> {
        &&& m.table(TRANSFORM3D_ID).len() == tt0.len()
        &&& forall|j: int|
            0 <= j < tt0.len() ==> (#[trigger] m.table(TRANSFORM3D_ID)[j]).0 == tt0[j].0
        &&& forall|j: int|
            0 <= j < tt0.len() ==> (#[trigger] m.table(TRANSFORM3D_ID)[j]).1 == (if kv_contains(
                ct0,
                tt0[j].0,
            ) && 0 <= kv_first_index(ct0, tt0[j].0) < k {
                trans_after_cams(m0, j)
            } else {
                tt0[j].1
            })
    }
}

/// Apply the controller at position `k`, carrying the stage
/// invariant forward by one position.
#[verifier::rlimit(100)]
fn apply_controller_entry(manager: &mut HeliumManager, k: usize, Ghost(m0): Ghost<HeliumManager>)
    requires
        cams_inv(m0, *old(manager), k as int),
        k < m0.table(CAMERA_CONTROLLER_ID).len(),
    ensures
        cams_inv(m0, *final(manager), k + 1),
{
    let ghost ct0 = m0.table(CAMERA_CONTROLLER_ID);
    let ghost kt0 = tbl_or_empty(m0, CAMERA3D_ID);
    let ghost tt0 = tbl_or_empty(m0, TRANSFORM3D_ID);
    proof {
        crate::manager::lemma_manager_table_wf(m0, CAMERA_CONTROLLER_ID);
        if m0.has_table(CAMERA3D_ID) {
            crate::manager::lemma_manager_table_wf(m0, CAMERA3D_ID);
        }
        if m0.has_table(TRANSFORM3D_ID) {
            crate::manager::lemma_manager_table_wf(m0, TRANSFORM3D_ID);
        }
        lemma_kv_scan_first(ct0, k as int);
        assert forall|j: int|
            0 <= j < kt0.len() && kv_contains(ct0, (#[trigger] kt0[j]).0) implies 0
            <= kv_first_index(ct0, kt0[j].0) < ct0.len() && ct0[kv_first_index(ct0, kt0[j].0)].0
            == kt0[j].0 by {
            lemma_kv_index_props(ct0, kt0[j].0);
        }
        assert forall|j: int|
            0 <= j < tt0.len() && kv_contains(ct0, (#[trigger] tt0[j]).0) implies 0
            <= kv_first_index(ct0, tt0[j].0) < ct0.len() && ct0[kv_first_index(ct0, tt0[j].0)].0
            == tt0[j].0 by {
            lemma_kv_index_props(ct0, tt0[j].0);
        }
    }
    let dt = fx_clamp(manager.delta_time);
    let (e, copt) = {
        let tbl = match manager.query(CAMERA_CONTROLLER_ID) {
            Some(t) => t,
            None => {
                proof {
                    assert(false);
                }
                unreached()
            },
        };
        let e = tbl.entity_at(k);
        let cv = match tbl.value_at(k) {
            Component::Controller(c) => Some(*c),
            _ => None,
        };
        (e, cv)
    };
    let ctl = match copt {
        Some(c) => c,
        None => {
            proof {
                assert(ctl_after_cams(m0, k as int) == ct0[k as int].1) by {
                    reveal(crate::tick::ctl_after_cams);
                }
                assert(cams_queue(m0, k + 1) =~= cams_queue(m0, k as int));
                assert forall|j: int|
                    0 <= j < kt0.len() && kv_contains(ct0, (#[trigger] kt0[j]).0)
                        && kv_first_index(ct0, kt0[j].0) == k implies cam_after_cams(m0, j)
                    == kt0[j].1 by {
                    reveal(crate::tick::cam_after_cams);
                    lemma_kv_index_props(ct0, kt0[j].0);
                    lemma_kv_scan_first(kt0, j);
                }
                assert forall|j: int|
                    0 <= j < tt0.len() && kv_contains(ct0, (#[trigger] tt0[j]).0)
                        && kv_first_index(ct0, tt0[j].0) == k implies trans_after_cams(m0, j)
                    == tt0[j].1 by {
                    reveal(crate::tick::trans_after_cams);
                    lemma_kv_index_props(ct0, tt0[j].0);
                    lemma_kv_scan_first(tt0, j);
                }
            }
            return ;
        },
    };
    let camopt = {
        match manager.query(CAMERA3D_ID) {
            None => None,
            Some(kt) => {
                match kt.get(e) {
                    Some(Component::Camera(c)) => Some(*c),
                    _ => None,
                }
            },
        }
    };
    let mut cam = match camopt {
        Some(c) => c,
        None => {
            proof {
                if m0.has_table(CAMERA3D_ID) {
                    lemma_kv_parallel(manager.table(CAMERA3D_ID), kt0, e);
                    if kv_contains(kt0, e) {
                        lemma_kv_index_props(kt0, e);
                    }
                }
                assert(cam_of(kt0, e) is None);
                assert(ctl_after_cams(m0, k as int) == ct0[k as int].1) by {
                    reveal(crate::tick::ctl_after_cams);
                }
                assert(cams_queue(m0, k + 1) =~= cams_queue(m0, k as int));
                assert forall|j: int|
                    0 <= j < tt0.len() && kv_contains(ct0, (#[trigger] tt0[j]).0)
                        && kv_first_index(ct0, tt0[j].0) == k implies trans_after_cams(m0, j)
                    == tt0[j].1 by {
                    reveal(crate::tick::trans_after_cams);
                    lemma_kv_index_props(ct0, tt0[j].0);
                    lemma_kv_scan_first(tt0, j);
                }
                assert forall|j: int|
                    0 <= j < kt0.len() && kv_contains(ct0, (#[trigger] kt0[j]).0)
                        && kv_first_index(ct0, kt0[j].0) == k implies cam_after_cams(m0, j)
                    == kt0[j].1 by {
                    reveal(crate::tick::cam_after_cams);
                    lemma_kv_index_props(ct0, kt0[j].0);
                    lemma_kv_scan_first(kt0, j);
                }
            }
            return ;
        },
    };
    proof {
        lemma_kv_parallel(manager.table(CAMERA3D_ID), kt0, e);
        lemma_kv_index_props(kt0, e);
        lemma_kv_index_props(m0.ecs_instance.world.component_maps@, CAMERA3D_ID);
        assert(cam_of(kt0, e) == Some(cam));
    }
    // Turn the camera by the pending intents.
    cam.add_yaw(crate::math::fx_neg(ctl.delta.0));
    cam.add_pitch(crate::math::fx_neg(ctl.delta.1));
    proof {
        assert(cam == cam_after_intents(camopt.unwrap(), ctl));
        assert(cam_after_cams(m0, kv_first_index(kt0, e)) == Component::Camera(cam)) by {
            reveal(crate::tick::cam_after_cams);
        }
    }
    // Consume the controller's deltas.
    let mut ctl2 = ctl;
    ctl2.delta = (0, 0);
    proof {
        assert(ctl_after_cams(m0, k as int) == Component::Controller(ctl2)) by {
            reveal(crate::tick::ctl_after_cams);
        }
        lemma_kv_scan_first(manager.table(CAMERA_CONTROLLER_ID), k as int);
    }
    put_component_at_key(manager, e, Component::Controller(ctl2));
    // Move the entity's transform by the held movement intents.
    let topt = {
        match manager.query(TRANSFORM3D_ID) {
            None => None,
            Some(tt) => {
                match tt.get(e) {
                    Some(Component::Transform(t)) => Some(*t),
                    _ => None,
                }
            },
        }
    };
    match topt {
        Some(t) => {
            proof {
                lemma_kv_parallel(manager.table(TRANSFORM3D_ID), tt0, e);
                lemma_kv_index_props(tt0, e);
                lemma_kv_index_props(m0.ecs_instance.world.component_maps@, TRANSFORM3D_ID);
            }
            let f = cam.target.normalize();
            let fstep = f.times(dt).times(crate::camera::CAMERA_SPEED);
            let mut t2 = t;
            if ctl.forward {
                t2.add_position(fstep);
            }
            if ctl.backward {
                t2.add_position(fstep.neg());
            }
            let right = f.cross(&cam.up);
            let rstep = right.times(dt).times(crate::camera::CAMERA_SPEED);
            if ctl.left {
                t2.add_position(rstep.neg());
            }
            if ctl.right {
                t2.add_position(rstep);
            }
            proof {
                assert(t2 == ctrl_trans_after_s(t, cam, ctl, dt as int));
                assert(trans_after_cams(m0, kv_first_index(tt0, e)) == Component::Transform(t2))
                    by {
                    reveal(crate::tick::trans_after_cams);
                }
            }
            put_component_at_key(manager, e, Component::Transform(t2));
        },
        None => {
            proof {
                if m0.has_table(TRANSFORM3D_ID) {
                    lemma_kv_parallel(manager.table(TRANSFORM3D_ID), tt0, e);
                    if kv_contains(tt0, e) {
                        lemma_kv_index_props(tt0, e);
                        assert(trans_after_cams(m0, kv_first_index(tt0, e)) == tt0[kv_first_index(
                            tt0,
                            e,
                        )].1) by {
                            reveal(crate::tick::trans_after_cams);
                        }
                    }
                }
            }
        },
    }
    // Write the turned camera back and queue the renderer update.
    put_component_at_key(manager, e, Component::Camera(cam));
    push_command(manager, RenderCommand::UpdateCamera(cam));
    proof {
        assert(manager.render_queue@ =~= m0.render_queue@ + cams_queue(m0, k + 1));
    }
}

/// Stage one of the tick: apply every camera controller's pending
/// rotation and movement intents to its entity's camera and
/// transform, consume the intents, and queue a renderer update for
/// each turned camera. A missing controller table makes the call a
/// no-op.
pub fn update_cameras(manager: &mut HeliumManager)
    requires
        old(manager).wf(),
    ensures
        final(manager).wf(),
        HeliumManager::same_control_state(*old(manager), *final(manager)),
        !old(manager).has_table(CAMERA_CONTROLLER_ID) ==> *final(manager) == *old(manager),
        forall|t: u64| #[trigger] final(manager).has_table(t) == old(manager).has_table(t),
        old(manager).has_table(CAMERA_CONTROLLER_ID) ==> {
            let ct0 = old(manager).table(CAMERA_CONTROLLER_ID);
            &&& final(manager).render_queue@ == old(manager).render_queue@ + cams_queue(
                *old(manager),
                ct0.len() as int,
            )
            &&& final(manager).table(CAMERA_CONTROLLER_ID).len() == ct0.len()
            &&& forall|j: int|
                0 <= j < ct0.len() ==> (#[trigger] final(manager).table(CAMERA_CONTROLLER_ID)[j]).0
                    == ct0[j].0
            &&& forall|j: int|
                0 <= j < ct0.len() ==> (#[trigger] final(manager).table(CAMERA_CONTROLLER_ID)[j]).1
                    == ctl_after_cams(*old(manager), j)
            &&& forall|t: u64|
                t != CAMERA_CONTROLLER_ID && t != CAMERA3D_ID && t != TRANSFORM3D_ID && old(
                    manager,
                ).has_table(t) ==> #[trigger] final(manager).table(t) == old(manager).table(t)
            &&& old(manager).has_table(CAMERA3D_ID) ==> {
                let kt0 = old(manager).table(CAMERA3D_ID);
                &&& final(manager).table(CAMERA3D_ID).len() == kt0.len()
                &&& forall|j: int|
                    0 <= j < kt0.len() ==> (#[trigger] final(manager).table(CAMERA3D_ID)[j]).0
                        == kt0[j].0
                &&& forall|j: int|
                    0 <= j < kt0.len() ==> (#[trigger] final(manager).table(CAMERA3D_ID)[j]).1 == (
                    if kv_contains(ct0, kt0[j].0) {
                        cam_after_cams(*old(manager), j)
                    } else {
                        kt0[j].1
                    })
            }
            &&& old(manager).has_table(TRANSFORM3D_ID) ==> {
                let tt0 = old(manager).table(TRANSFORM3D_ID);
                &&& final(manager).table(TRANSFORM3D_ID).len() == tt0.len()
                &&& forall|j: int|
                    0 <= j < tt0.len() ==> (#[trigger] final(manager).table(TRANSFORM3D_ID)[j]).0
                        == tt0[j].0
                &&& forall|j: int|
                    0 <= j < tt0.len() ==> (#[trigger] final(manager).table(TRANSFORM3D_ID)[j]).1
                        == (if kv_contains(ct0, tt0[j].0) {
                        trans_after_cams(*old(manager), j)
                    } else {
                        tt0[j].1
                    })
            }
        },
{
    let ghost m0 = *old(manager);
    let clen = match manager.query(CAMERA_CONTROLLER_ID) {
        Some(t) => t.len(),
        None => {
            return ;
        },
    };
    proof {
        assert(manager.render_queue@ =~= m0.render_queue@ + cams_queue(m0, 0));
    }
    let mut k: usize = 0;
    while k < clen
        invariant
            cams_inv(m0, *manager, k as int),
            clen == m0.table(CAMERA_CONTROLLER_ID).len(),
            k <= clen,
        decreases clen - k,
    {
        apply_controller_entry(manager, k, Ghost(m0));
        k += 1;
    }
    proof {
        let ct0 = m0.table(CAMERA_CONTROLLER_ID);
        if m0.has_table(CAMERA3D_ID) {
            let kt0 = m0.table(CAMERA3D_ID);
            assert forall|j: int| 0 <= j < kt0.len() && kv_contains(ct0, kt0[j].0) implies 0
                <= kv_first_index(ct0, (#[trigger] kt0[j]).0) < ct0.len() by {
                lemma_kv_index_props(ct0, kt0[j].0);
            }
        }
        if m0.has_table(TRANSFORM3D_ID) {
            let tt0 = m0.table(TRANSFORM3D_ID);
            assert forall|j: int| 0 <= j < tt0.len() && kv_contains(ct0, tt0[j].0) implies 0
                <= kv_first_index(ct0, (#[trigger] tt0[j]).0) < ct0.len() by {
                lemma_kv_index_props(ct0, tt0[j].0);
            }
        }
    }
}

} // verus!
