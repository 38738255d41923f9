//! The manager: the ergonomic surface that user callbacks drive.
//!
//! It owns the entity-component store and mirrors every change the
//! renderer must see into a queue of render commands. The embedding
//! program drains that queue once per tick and performs the actual
//! backend calls; the manager itself never touches a device. Object
//! and light slots are assigned here by counting, in the same order
//! the backend allocates them when it replays the queue.

use vstd::prelude::*;

use crate::camera::Camera3d;
use crate::component::Component;
use crate::component::component_type_id;
use crate::component::component_type_id_s;
use crate::component::component_wf;
use crate::component::CAMERA3D_ID;
use crate::component::LIGHT_ID;
use crate::component::MODEL3D_ID;
use crate::component::TRANSFORM3D_ID;
use crate::ecs::HeliumECS;
use crate::light::Light;
use crate::model::Model3d;
use crate::quat::Quat;
use crate::table::ComponentTable;
use crate::table::kv_contains;
use crate::table::kv_get;
use crate::table::kv_insert;
use crate::table::kv_wf;
use crate::table::lemma_kv_index_props;
use crate::transform::Transform3d;
use crate::vec3::Vec3;
use crate::world::Entity;

verus! {

/// One backend operation the simulation has decided on. The
/// embedding program replays these against the renderer in order.
#[derive(Debug)]
pub enum RenderCommand {
    /// Load the model asset at `path` into the given object slot for
    /// this entity.
    CreateObject { entity: Entity, object_index: usize, path: String, position: Vec3, rotation: Quat },
    /// Move the instance in the given object slot.
    UpdateInstance { object_index: usize, position: Vec3, rotation: Quat },
    /// Register the scene camera.
    AddCamera(Camera3d),
    /// Reposition the scene camera.
    UpdateCamera(Camera3d),
    /// Register a light in its slot.
    AddLight(Light),
    /// Move a registered light.
    UpdateLight(Light),
}

/// Raised when a camera operation is asked of a manager that has no
/// registered camera.
#[derive(Clone, Copy, PartialEq, Eq, Structural, Debug)]
pub enum ManagerError {
    NoCameraRegistered,
}

/// Every component value in a table is numerically in range.
pub open spec fn tbl_components_wf(s: Seq<(usize, Component)>) -> bool {
    forall|i: int| 0 <= i < s.len() ==> component_wf(#[trigger] s[i].1)
}

/// Inserting a well-formed component keeps a table's components well
/// formed.
pub proof fn lemma_insert_components_wf(s: Seq<(usize, Component)>, e: usize, c: Component)
    requires
        kv_wf(s),
        tbl_components_wf(s),
        component_wf(c),
    ensures
        tbl_components_wf(kv_insert(s, e, c)),
{
    let r = kv_insert(s, e, c);
    if kv_contains(s, e) {
        lemma_kv_index_props(s, e);
    }
    assert forall|i: int| 0 <= i < r.len() implies component_wf(#[trigger] r[i].1) by {
        if i < s.len() {
            assert(r[i] == s[i] || r[i] == (e, c));
        }
    }
}

/// Two manager states with the same table registry agree on every
/// table, and well-formedness carries over.
pub proof fn lemma_same_tables(a: HeliumManager, b: HeliumManager)
    requires
        b.ecs_instance.world.component_maps@ == a.ecs_instance.world.component_maps@,
    ensures
        forall|t: u64| #[trigger] b.has_table(t) == a.has_table(t),
        forall|t: u64| #[trigger] b.table(t) == a.table(t),
        a.wf() && b.ecs_instance.wf() ==> b.wf(),
{
    assert forall|t: u64| #[trigger] b.has_table(t) == a.has_table(t) by {
        assert(b.ecs_instance.has_table(t) == a.ecs_instance.has_table(t));
    }
    assert forall|t: u64| #[trigger] b.table(t) == a.table(t) by {
        assert(b.ecs_instance.table(t) == a.ecs_instance.table(t));
    }
    if a.wf() && b.ecs_instance.wf() {
        assert forall|tid: u64| #[trigger] b.ecs_instance.has_table(tid) implies
            tbl_components_wf(b.ecs_instance.table(tid)) by {
            assert(a.has_table(tid) == b.has_table(tid));
            assert(a.ecs_instance.has_table(tid) == a.has_table(tid));
            assert(b.table(tid) == a.table(tid));
        }
    }
}

/// A registered table of a well-formed manager has unique keys and
/// well-formed components.
pub proof fn lemma_manager_table_wf(m: HeliumManager, tid: u64)
    requires
        m.wf(),
        m.has_table(tid),
    ensures
        kv_wf(m.table(tid)),
        tbl_components_wf(m.table(tid)),
{
    lemma_kv_index_props(m.ecs_instance.world.component_maps@, tid);
}

/// The orchestrator: the store, the camera shortcut, the per-tick
/// time step, the renderer slot counters, and the pending render
/// commands.
pub struct HeliumManager {
    pub ecs_instance: HeliumECS<Component>,
    pub camera_id: Option<Entity>,
    pub delta_time: i64,
    pub next_object_index: usize,
    pub next_light_index: usize,
    pub render_queue: Vec<RenderCommand>,
}

impl HeliumManager {
    /// The store is well formed and every stored component is in
    /// range.
    pub open spec fn wf(&self) -> bool {
        &&& self.ecs_instance.wf()
        &&& forall|tid: u64|
            #[trigger] self.ecs_instance.has_table(tid) ==> tbl_components_wf(
                self.ecs_instance.table(tid),
            )
    }

    /// A table for the type exists.
    pub open spec fn has_table(&self, tid: u64) -> bool {
        self.ecs_instance.has_table(tid)
    }

    /// The table of one component type.
    pub open spec fn table(&self, tid: u64) -> Seq<(Entity, Component)> {
        self.ecs_instance.table(tid)
    }

    /// The entity has a component of the type.
    pub open spec fn has_component(&self, tid: u64, e: Entity) -> bool {
        self.has_table(tid) && kv_contains(self.table(tid), e)
    }

    /// The component of one entity.
    pub open spec fn component_of(&self, tid: u64, e: Entity) -> Component {
        kv_get(self.table(tid), e)
    }

    /// The renderer object slot the entity's model is linked to, if
    /// it has a linked model.
    pub open spec fn model_index_of(&self, e: Entity) -> Option<usize> {
        if self.has_component(MODEL3D_ID, e) {
            match self.component_of(MODEL3D_ID, e) {
                Component::Model(m) => m.renderer_index,
                _ => None,
            }
        } else {
            None
        }
    }

    /// Everything except the store and the render queue is unchanged.
    pub open spec fn same_control_state(a: HeliumManager, b: HeliumManager) -> bool {
        &&& a.camera_id == b.camera_id
        &&& a.delta_time == b.delta_time
        &&& a.next_object_index == b.next_object_index
        &&& a.next_light_index == b.next_light_index
    }

    /// A manager over the given store, with no camera, a zero time
    /// step, no renderer slots issued and nothing queued.
    pub fn new(ecs: HeliumECS<Component>) -> (r: HeliumManager)
        ensures
            r.ecs_instance == ecs,
            r.camera_id is None,
            r.delta_time == 0,
            r.next_object_index == 0,
            r.next_light_index == 0,
            r.render_queue@.len() == 0,
    {
        HeliumManager {
            ecs_instance: ecs,
            camera_id: None,
            delta_time: 0,
            next_object_index: 0,
            next_light_index: 0,
            render_queue: Vec::new(),
        }
    }

    /// Create a new entity.
    pub fn create_entity(&mut self) -> (r: Entity)
        requires
            old(self).wf(),
            old(self).ecs_instance.world.entity_count < usize::MAX,
            old(self).ecs_instance.world.num_entities < usize::MAX,
        ensures
            r == old(self).ecs_instance.world.entity_count,
            final(self).ecs_instance.world.entity_count == old(self).ecs_instance.world.entity_count + 1,
            final(self).ecs_instance.world.num_entities == old(self).ecs_instance.world.num_entities
                + 1,
            final(self).ecs_instance.world.component_maps@ == old(self).ecs_instance.world.component_maps@,
            Self::same_control_state(*old(self), *final(self)),
            final(self).render_queue@ == old(self).render_queue@,
            final(self).wf(),
    {
        let r = self.ecs_instance.new_entity();
        proof {
            lemma_same_tables(*old(self), *self);
        }
        r
    }

    /// Attach a component to an entity; its table is chosen by the
    /// component's own type.
    pub fn add_component(&mut self, entity: Entity, component: Component) -> (r: Entity)
        requires
            old(self).wf(),
            component_wf(component),
        ensures
            r == entity,
            final(self).wf(),
            final(self).has_table(component_type_id_s(component)),
            final(self).table(component_type_id_s(component)) == kv_insert(
                if old(self).has_table(component_type_id_s(component)) {
                    old(self).table(component_type_id_s(component))
                } else {
                    Seq::<(Entity, Component)>::empty()
                },
                entity,
                component,
            ),
            forall|t: u64|
                t != component_type_id_s(component) ==> #[trigger] final(self).has_table(t) == old(self).has_table(t),
            forall|t: u64|
                t != component_type_id_s(component) && old(self).has_table(t)
                    ==> #[trigger] final(self).table(t) == old(self).table(t),
            final(self).ecs_instance.world.entity_count == old(self).ecs_instance.world.entity_count,
            final(self).ecs_instance.world.num_entities == old(self).ecs_instance.world.num_entities,
            Self::same_control_state(*old(self), *final(self)),
            final(self).render_queue@ == old(self).render_queue@,
    {
        let tid = component_type_id(&component);
        proof {
            if old(self).has_table(tid) {
                lemma_kv_index_props(old(self).ecs_instance.world.component_maps@, tid);
            }
        }
        let ghost old_tables = old(self).ecs_instance.world.component_maps@;
        self.ecs_instance.add_component(entity, tid, component);
        proof {
            assert forall|t: u64| #[trigger] self.ecs_instance.has_table(t) implies
                tbl_components_wf(self.ecs_instance.table(t)) by {
                if t == tid {
                    if old(self).has_table(tid) {
                        crate::manager::lemma_insert_components_wf(
                            old(self).table(tid),
                            entity,
                            component,
                        );
                    } else {
                        crate::manager::lemma_insert_components_wf(
                            Seq::<(Entity, Component)>::empty(),
                            entity,
                            component,
                        );
                    }
                }
            }
        }
        entity
    }

    /// Borrow the table of one component type, if it exists.
    pub fn query(&self, type_id: u64) -> (r: Option<&ComponentTable<Component>>)
        requires
            self.wf(),
        ensures
            match r {
                Some(t) => self.has_table(type_id) && t@ == self.table(type_id) && t.wf(),
                None => !self.has_table(type_id),
            },
    {
        self.ecs_instance.query(type_id)
    }

    /// Borrow the table of one component type exclusively, if it
    /// exists.
    pub fn query_mut(&mut self, type_id: u64) -> (r: Option<&mut ComponentTable<Component>>)
        requires
            old(self).wf(),
        ensures
            old(self).has_table(type_id) <==> r is Some,
            r is None ==> *final(self) == *old(self),
            r matches Some(m) ==> {
                &&& m@ == old(self).table(type_id)
                &&& m.wf()
                &&& final(self).ecs_instance.world.component_maps@ == old(self).ecs_instance.world.component_maps@.update(
                    crate::table::kv_first_index(
                        old(self).ecs_instance.world.component_maps@,
                        type_id,
                    ),
                    (type_id, *final(m)),
                )
                &&& final(self).ecs_instance.world.entity_count == old(self).ecs_instance.world.entity_count
                &&& final(self).ecs_instance.world.num_entities == old(self).ecs_instance.world.num_entities
            },
    {
        self.ecs_instance.query_mut(type_id)
    }

    /// The entities whose component of the given type the comparator
    /// accepts, in table order.
    pub fn entities_with<F: Fn(&Component) -> bool>(&self, type_id: u64, comparator: F) -> (r: Vec<
        Entity,
    >)
        requires
            self.wf(),
            self.has_table(type_id),
            forall|v: &Component| #[trigger] comparator.requires((v,)),
        ensures
            ({
                let t = self.table(type_id);
                &&& forall|i: int, j: int| 0 <= i < j < r@.len() ==> r@[i] != r@[j]
                &&& forall|i: int|
                    0 <= i < r@.len() ==> kv_contains(t, #[trigger] r@[i]) && call_ensures(
                        comparator,
                        (&kv_get(t, r@[i]),),
                        true,
                    )
                &&& forall|j: int|
                    0 <= j < t.len() && !r@.contains(#[trigger] t[j].0) ==> call_ensures(
                        comparator,
                        (&t[j].1,),
                        false,
                    )
            }),
    {
        self.ecs_instance.entities_with(type_id, comparator)
    }

    /// The entity's transform component, when it has one.
    pub open spec fn transform_of(&self, e: Entity) -> Option<Transform3d> {
        if self.has_component(TRANSFORM3D_ID, e) {
            match self.component_of(TRANSFORM3D_ID, e) {
                Component::Transform(t) => Some(t),
                _ => None,
            }
        } else {
            None
        }
    }

    /// Create an entity showing a model: the model is linked to the
    /// next renderer object slot, stored together with the transform,
    /// and a load command is queued.
    pub fn create_object(&mut self, model: Model3d, transform: Transform3d) -> (r: Entity)
        requires
            old(self).wf(),
            transform.wf(),
            old(self).ecs_instance.world.entity_count < usize::MAX,
            old(self).ecs_instance.world.num_entities < usize::MAX,
            old(self).next_object_index < usize::MAX,
        ensures
            r == old(self).ecs_instance.world.entity_count,
            final(self).wf(),
            final(self).next_object_index == old(self).next_object_index + 1,
            final(self).render_queue@ == old(self).render_queue@.push(
                RenderCommand::CreateObject {
                    entity: r,
                    object_index: old(self).next_object_index,
                    path: model.model_path,
                    position: transform.position,
                    rotation: transform.rotation,
                },
            ),
            final(self).table(MODEL3D_ID) == kv_insert(
                if old(self).has_table(MODEL3D_ID) {
                    old(self).table(MODEL3D_ID)
                } else {
                    Seq::<(Entity, Component)>::empty()
                },
                r,
                Component::Model(
                    Model3d {
                        model_path: model.model_path,
                        renderer_index: Some(old(self).next_object_index),
                    },
                ),
            ),
            final(self).table(TRANSFORM3D_ID) == kv_insert(
                if old(self).has_table(TRANSFORM3D_ID) {
                    old(self).table(TRANSFORM3D_ID)
                } else {
                    Seq::<(Entity, Component)>::empty()
                },
                r,
                Component::Transform(transform),
            ),
            forall|t: u64|
                t != MODEL3D_ID && t != TRANSFORM3D_ID ==> #[trigger] final(self).has_table(t)
                    == old(self).has_table(t),
            forall|t: u64|
                t != MODEL3D_ID && t != TRANSFORM3D_ID && old(self).has_table(t)
                    ==> #[trigger] final(self).table(t) == old(self).table(t),
            final(self).camera_id == old(self).camera_id,
            final(self).delta_time == old(self).delta_time,
            final(self).next_light_index == old(self).next_light_index,
    {
        let renderer_index = self.next_object_index;
        self.next_object_index = renderer_index + 1;
        let mut model = model;
        let path = model.model_path.clone();
        model.set_renderer_index(renderer_index);
        let entity = self.ecs_instance.new_entity();
        self.render_queue.push(
            RenderCommand::CreateObject {
                entity,
                object_index: renderer_index,
                path,
                position: transform.position,
                rotation: transform.rotation,
            },
        );
        proof {
            lemma_same_tables(*old(self), *self);
        }
        self.add_component(entity, Component::Model(model));
        self.add_component(entity, Component::Transform(transform));
        entity
    }

    /// Register the scene camera: store it as a component, remember
    /// its entity as the current camera, and queue its registration.
    pub fn create_camera(&mut self, camera: Camera3d) -> (r: Entity)
        requires
            old(self).wf(),
            camera.wf(),
            old(self).ecs_instance.world.entity_count < usize::MAX,
            old(self).ecs_instance.world.num_entities < usize::MAX,
        ensures
            r == old(self).ecs_instance.world.entity_count,
            final(self).wf(),
            final(self).camera_id == Some(r),
            final(self).render_queue@ == old(self).render_queue@.push(
                RenderCommand::AddCamera(camera),
            ),
            final(self).table(CAMERA3D_ID) == kv_insert(
                if old(self).has_table(CAMERA3D_ID) {
                    old(self).table(CAMERA3D_ID)
                } else {
                    Seq::<(Entity, Component)>::empty()
                },
                r,
                Component::Camera(camera),
            ),
            forall|t: u64|
                t != CAMERA3D_ID ==> #[trigger] final(self).has_table(t) == old(self).has_table(t),
            forall|t: u64|
                t != CAMERA3D_ID && old(self).has_table(t) ==> #[trigger] final(self).table(t)
                    == old(self).table(t),
            final(self).delta_time == old(self).delta_time,
            final(self).next_object_index == old(self).next_object_index,
            final(self).next_light_index == old(self).next_light_index,
    {
        let camera_entity = self.ecs_instance.new_entity();
        self.render_queue.push(RenderCommand::AddCamera(camera));
        proof {
            lemma_same_tables(*old(self), *self);
        }
        self.add_component(camera_entity, Component::Camera(camera));
        let ghost mid = *self;
        self.camera_id = Some(camera_entity);
        proof {
            lemma_same_tables(mid, *self);
        }
        camera_entity
    }

    /// Replace the current camera's state and queue the renderer
    /// update. A manager with no registered camera reports the error
    /// instead.
    pub fn update_camera(&mut self, camera: Camera3d) -> (r: Result<(), ManagerError>)
        requires
            old(self).wf(),
            camera.wf(),
        ensures
            r is Ok <==> old(self).camera_id is Some,
            r is Err ==> *final(self) == *old(self) && r == Err::<(), ManagerError>(
                ManagerError::NoCameraRegistered,
            ),
            r is Ok ==> {
                &&& final(self).wf()
                &&& final(self).render_queue@ == old(self).render_queue@.push(
                    RenderCommand::UpdateCamera(camera),
                )
                &&& final(self).table(CAMERA3D_ID) == kv_insert(
                    if old(self).has_table(CAMERA3D_ID) {
                        old(self).table(CAMERA3D_ID)
                    } else {
                        Seq::<(Entity, Component)>::empty()
                    },
                    old(self).camera_id.unwrap(),
                    Component::Camera(camera),
                )
                &&& forall|t: u64|
                    t != CAMERA3D_ID ==> #[trigger] final(self).has_table(t) == old(self).has_table(t)
                &&& forall|t: u64|
                    t != CAMERA3D_ID && old(self).has_table(t) ==> #[trigger] final(self).table(t)
                        == old(self).table(t)
                &&& Self::same_control_state(*old(self), *final(self))
            },
    {
        let id = match self.camera_id {
            Some(id) => id,
            None => {
                return Err(ManagerError::NoCameraRegistered);
            },
        };
        self.render_queue.push(RenderCommand::UpdateCamera(camera));
        proof {
            lemma_same_tables(*old(self), *self);
        }
        self.add_component(id, Component::Camera(camera));
        Ok(())
    }

    /// Queue a renderer update for the given camera state, touching
    /// nothing else.
    pub fn move_camera_to_render(&mut self, camera: &Camera3d)
        ensures
            final(self).render_queue@ == old(self).render_queue@.push(
                RenderCommand::UpdateCamera(*camera),
            ),
            final(self).ecs_instance == old(self).ecs_instance,
            Self::same_control_state(*old(self), *final(self)),
    {
        self.render_queue.push(RenderCommand::UpdateCamera(*camera));
    }

    /// Register a light: assign it the next renderer light slot,
    /// store it as a component of a fresh entity, and queue its
    /// registration.
    pub fn add_light(&mut self, light: Light) -> (r: Entity)
        requires
            old(self).wf(),
            light.wf(),
            old(self).ecs_instance.world.entity_count < usize::MAX,
            old(self).ecs_instance.world.num_entities < usize::MAX,
            old(self).next_light_index < usize::MAX,
        ensures
            r == old(self).ecs_instance.world.entity_count,
            final(self).wf(),
            final(self).next_light_index == old(self).next_light_index + 1,
            final(self).render_queue@ == old(self).render_queue@.push(
                RenderCommand::AddLight(Light { index: old(self).next_light_index, ..light }),
            ),
            final(self).table(LIGHT_ID) == kv_insert(
                if old(self).has_table(LIGHT_ID) {
                    old(self).table(LIGHT_ID)
                } else {
                    Seq::<(Entity, Component)>::empty()
                },
                r,
                Component::Light(Light { index: old(self).next_light_index, ..light }),
            ),
            forall|t: u64|
                t != LIGHT_ID ==> #[trigger] final(self).has_table(t) == old(self).has_table(t),
            forall|t: u64|
                t != LIGHT_ID && old(self).has_table(t) ==> #[trigger] final(self).table(t) == old(self).table(t),
            final(self).camera_id == old(self).camera_id,
            final(self).delta_time == old(self).delta_time,
            final(self).next_object_index == old(self).next_object_index,
    {
        let mut light = light;
        light.index = self.next_light_index;
        self.next_light_index = self.next_light_index + 1;
        let light_entity = self.ecs_instance.new_entity();
        self.render_queue.push(RenderCommand::AddLight(light));
        proof {
            lemma_same_tables(*old(self), *self);
        }
        self.add_component(light_entity, Component::Light(light));
        light_entity
    }

    /// Read the renderer object slot of the entity's model.
    fn model_index(&self, entity: Entity) -> (r: usize)
        requires
            self.wf(),
            self.model_index_of(entity) is Some,
        ensures
            Some(r) == self.model_index_of(entity),
    {
        let table = match self.query(MODEL3D_ID) {
            Some(t) => t,
            None => {
                proof {
                    assert(false);
                }
                vstd::pervasive::unreached()
            },
        };
        match table.get(entity) {
            Some(Component::Model(m)) => {
                match m.get_renderer_index() {
                    Some(i) => *i,
                    None => {
                        proof {
                            assert(false);
                        }
                        vstd::pervasive::unreached()
                    },
                }
            },
            _ => {
                proof {
                    assert(false);
                }
                vstd::pervasive::unreached()
            },
        }
    }

    /// Store a new transform for the entity and queue the instance
    /// update for its linked model.
    pub fn update_transform(&mut self, entity: Entity, transform: Transform3d) -> (r: Entity)
        requires
            old(self).wf(),
            transform.wf(),
            old(self).model_index_of(entity) is Some,
        ensures
            r == entity,
            final(self).wf(),
            final(self).table(TRANSFORM3D_ID) == kv_insert(
                if old(self).has_table(TRANSFORM3D_ID) {
                    old(self).table(TRANSFORM3D_ID)
                } else {
                    Seq::<(Entity, Component)>::empty()
                },
                entity,
                Component::Transform(transform),
            ),
            final(self).render_queue@ == old(self).render_queue@.push(
                RenderCommand::UpdateInstance {
                    object_index: old(self).model_index_of(entity).unwrap(),
                    position: transform.position,
                    rotation: transform.rotation,
                },
            ),
            forall|t: u64|
                t != TRANSFORM3D_ID ==> #[trigger] final(self).has_table(t) == old(self).has_table(t),
            forall|t: u64|
                t != TRANSFORM3D_ID && old(self).has_table(t) ==> #[trigger] final(self).table(t)
                    == old(self).table(t),
            Self::same_control_state(*old(self), *final(self)),
    {
        self.add_component(entity, Component::Transform(transform));
        let object_index = self.model_index(entity);
        let ghost mid = *self;
        self.render_queue.push(
            RenderCommand::UpdateInstance {
                object_index,
                position: transform.position,
                rotation: transform.rotation,
            },
        );
        proof {
            lemma_same_tables(mid, *self);
        }
        entity
    }

    /// Move the entity's transform to a position and queue the
    /// instance update; an entity without a transform is left alone.
    pub fn set_position(&mut self, entity: Entity, position: Vec3)
        requires
            old(self).wf(),
            crate::vec3::v3_wf(position),
            old(self).model_index_of(entity) is Some,
            old(self).has_table(TRANSFORM3D_ID),
        ensures
            final(self).wf(),
            match old(self).transform_of(entity) {
                Some(t) => {
                    let t2 = Transform3d { position, rotation: t.rotation, update_flag: true };
                    &&& final(self).table(TRANSFORM3D_ID) == kv_insert(
                        old(self).table(TRANSFORM3D_ID),
                        entity,
                        Component::Transform(t2),
                    )
                    &&& final(self).render_queue@ == old(self).render_queue@.push(
                        RenderCommand::UpdateInstance {
                            object_index: old(self).model_index_of(entity).unwrap(),
                            position: t2.position,
                            rotation: t2.rotation,
                        },
                    )
                    &&& forall|t: u64|
                        t != TRANSFORM3D_ID ==> #[trigger] final(self).has_table(t) == old(self).has_table(t)
                    &&& forall|t: u64|
                        t != TRANSFORM3D_ID && old(self).has_table(t) ==> #[trigger] final(self).table(t) == old(self).table(t)
                    &&& Self::same_control_state(*old(self), *final(self))
                },
                None => *final(self) == *old(self),
            },
    {
        let object_index = self.model_index(entity);
        let table = match self.query(TRANSFORM3D_ID) {
            Some(t) => t,
            None => {
                proof {
                    assert(false);
                }
                vstd::pervasive::unreached()
            },
        };
        let current = match table.get(entity) {
            Some(Component::Transform(t)) => Some(*t),
            _ => None,
        };
        match current {
            Some(mut t) => {
                proof {
                    lemma_kv_index_props(self.table(TRANSFORM3D_ID), entity);
                }
                Transform3d::set_position(&mut t, position);
                self.add_component(entity, Component::Transform(t));
                let ghost mid = *self;
                self.render_queue.push(
                    RenderCommand::UpdateInstance {
                        object_index,
                        position: t.position,
                        rotation: t.rotation,
                    },
                );
                proof {
                    lemma_same_tables(mid, *self);
                }
            },
            None => {},
        }
    }

    /// Turn the entity's transform to a rotation and queue the
    /// instance update; an entity without a transform is left alone.
    pub fn set_rotation(&mut self, entity: Entity, rotation: Quat)
        requires
            old(self).wf(),
            crate::quat::q_wf(rotation),
            old(self).model_index_of(entity) is Some,
            old(self).has_table(TRANSFORM3D_ID),
        ensures
            final(self).wf(),
            match old(self).transform_of(entity) {
                Some(t) => {
                    let t2 = Transform3d { position: t.position, rotation, update_flag: true };
                    &&& final(self).table(TRANSFORM3D_ID) == kv_insert(
                        old(self).table(TRANSFORM3D_ID),
                        entity,
                        Component::Transform(t2),
                    )
                    &&& final(self).render_queue@ == old(self).render_queue@.push(
                        RenderCommand::UpdateInstance {
                            object_index: old(self).model_index_of(entity).unwrap(),
                            position: t2.position,
                            rotation: t2.rotation,
                        },
                    )
                    &&& forall|t: u64|
                        t != TRANSFORM3D_ID ==> #[trigger] final(self).has_table(t) == old(self).has_table(t)
                    &&& forall|t: u64|
                        t != TRANSFORM3D_ID && old(self).has_table(t) ==> #[trigger] final(self).table(t) == old(self).table(t)
                    &&& Self::same_control_state(*old(self), *final(self))
                },
                None => *final(self) == *old(self),
            },
    {
        let object_index = self.model_index(entity);
        let table = match self.query(TRANSFORM3D_ID) {
            Some(t) => t,
            None => {
                proof {
                    assert(false);
                }
                vstd::pervasive::unreached()
            },
        };
        let current = match table.get(entity) {
            Some(Component::Transform(t)) => Some(*t),
            _ => None,
        };
        match current {
            Some(mut t) => {
                proof {
                    lemma_kv_index_props(self.table(TRANSFORM3D_ID), entity);
                }
                t.set_rotation(rotation);
                self.add_component(entity, Component::Transform(t));
                let ghost mid = *self;
                self.render_queue.push(
                    RenderCommand::UpdateInstance {
                        object_index,
                        position: t.position,
                        rotation: t.rotation,
                    },
                );
                proof {
                    lemma_same_tables(mid, *self);
                }
            },
            None => {},
        }
    }

    /// Queue an instance update carrying the entity's current
    /// transform; an entity without a transform queues nothing.
    pub fn move_transform_to_renderer(&mut self, entity: Entity)
        requires
            old(self).wf(),
            old(self).model_index_of(entity) is Some,
            old(self).has_table(TRANSFORM3D_ID),
        ensures
            final(self).ecs_instance == old(self).ecs_instance,
            Self::same_control_state(*old(self), *final(self)),
            final(self).wf(),
            match old(self).transform_of(entity) {
                Some(t) => final(self).render_queue@ == old(self).render_queue@.push(
                    RenderCommand::UpdateInstance {
                        object_index: old(self).model_index_of(entity).unwrap(),
                        position: t.position,
                        rotation: t.rotation,
                    },
                ),
                None => final(self).render_queue@ == old(self).render_queue@,
            },
    {
        let object_index = self.model_index(entity);
        let table = match self.query(TRANSFORM3D_ID) {
            Some(t) => t,
            None => {
                proof {
                    assert(false);
                }
                vstd::pervasive::unreached()
            },
        };
        let current = match table.get(entity) {
            Some(Component::Transform(t)) => Some(*t),
            _ => None,
        };
        match current {
            Some(t) => {
                self.render_queue.push(
                    RenderCommand::UpdateInstance {
                        object_index,
                        position: t.position,
                        rotation: t.rotation,
                    },
                );
            },
            None => {},
        }
    }

    /// Hand over (and clear) the pending render commands.
    pub fn take_render_commands(&mut self) -> (r: Vec<RenderCommand>)
        ensures
            r@ == old(self).render_queue@,
            final(self).render_queue@.len() == 0,
            final(self).ecs_instance == old(self).ecs_instance,
            Self::same_control_state(*old(self), *final(self)),
    {
        let mut taken: Vec<RenderCommand> = Vec::new();
        core::mem::swap(&mut taken, &mut self.render_queue);
        taken
    }
}

} // verus!
