//! The entity-component store facade: the ergonomic surface over the
//! world that user code and the manager talk to.

use vstd::prelude::*;

use crate::table::ComponentTable;
use crate::table::kv_get;
use crate::table::kv_insert;
use crate::table::kv_remove;
use crate::world::Entity;
use crate::world::World;

verus! {

/// The entity-component store. `C` is the component universe; a
/// caller-chosen type identifier names each component type's table.
pub struct HeliumECS<C> {
    pub world: World<C>,
}

impl<C> HeliumECS<C> {
    /// The underlying world is well formed.
    pub open spec fn wf(&self) -> bool {
        self.world.wf()
    }

    /// A table for the given type identifier exists.
    pub open spec fn has_table(&self, type_id: u64) -> bool {
        self.world.has_table(type_id)
    }

    /// The table registered for the given type identifier.
    pub open spec fn table(&self, type_id: u64) -> Seq<(Entity, C)> {
        self.world.table(type_id)
    }

    /// A store over a fresh, empty world.
    pub fn new() -> (r: HeliumECS<C>)
        ensures
            r.world.entity_count == 0,
            r.world.num_entities == 0,
            r.world.component_maps@.len() == 0,
            r.wf(),
    {
        HeliumECS { world: World::new() }
    }

    /// Create a new entity and return its identity.
    pub fn new_entity(&mut self) -> (r: Entity)
        requires
            old(self).wf(),
            old(self).world.entity_count < usize::MAX,
            old(self).world.num_entities < usize::MAX,
        ensures
            r == old(self).world.entity_count,
            final(self).world.entity_count == old(self).world.entity_count + 1,
            final(self).world.num_entities == old(self).world.num_entities + 1,
            final(self).world.component_maps@ == old(self).world.component_maps@,
            final(self).wf(),
    {
        self.world.new_entity()
    }

    /// Give the entity a component in the table named by `type_id`,
    /// overwriting any previous one.
    pub fn add_component(&mut self, entity: Entity, type_id: u64, component: C)
        requires
            old(self).wf(),
        ensures
            final(self).world.entity_count == old(self).world.entity_count,
            final(self).world.num_entities == old(self).world.num_entities,
            final(self).wf(),
            final(self).has_table(type_id),
            final(self).table(type_id) == kv_insert(
                if old(self).has_table(type_id) {
                    old(self).table(type_id)
                } else {
                    Seq::<(Entity, C)>::empty()
                },
                entity,
                component,
            ),
            forall|t: u64|
                t != type_id ==> #[trigger] final(self).has_table(t) == old(self).has_table(t),
            forall|t: u64|
                t != type_id && old(self).has_table(t) ==> #[trigger] final(self).table(t) == old(
                    self,
                ).table(t),
    {
        self.world.add_component_to_entity(entity, type_id, component);
    }

    /// Drop the entity's component of one type. The table must exist;
    /// an entity without the component is a silent no-op.
    pub fn remove_component(&mut self, type_id: u64, entity: Entity)
        requires
            old(self).wf(),
            old(self).has_table(type_id),
        ensures
            final(self).wf(),
            final(self).world.entity_count == old(self).world.entity_count,
            final(self).world.num_entities == old(self).world.num_entities,
            forall|t: u64| #[trigger] final(self).has_table(t) == old(self).has_table(t),
            final(self).table(type_id) == kv_remove(old(self).table(type_id), entity),
            forall|t: u64|
                t != type_id && old(self).has_table(t) ==> #[trigger] final(self).table(t) == old(
                    self,
                ).table(t),
    {
        proof {
            crate::table::lemma_kv_index_props(old(self).world.component_maps@, type_id);
        }
        let m = self.world.borrow_component_map_mut(type_id);
        match m {
            Some(table) => {
                table.remove(entity);
            },
            None => {
                proof {
                    assert(false);
                }
            },
        }
        proof {
            let maps = old(self).world.component_maps@;
            let i0 = crate::table::kv_first_index(maps, type_id);
            crate::table::lemma_kv_index_props(maps, type_id);
            let updated = self.world.component_maps@[i0].1;
            assert(self.world.component_maps@ =~= kv_insert(maps, type_id, updated));
            crate::table::lemma_kv_insert_frame(maps, type_id, updated);
        }
    }

    /// Borrow the table of one component type, if it exists.
    pub fn query(&self, type_id: u64) -> (r: Option<&ComponentTable<C>>)
        requires
            self.wf(),
        ensures
            match r {
                Some(t) => self.has_table(type_id) && t@ == self.table(type_id) && t.wf(),
                None => !self.has_table(type_id),
            },
    {
        let r = self.world.borrow_component_map(type_id);
        proof {
            if self.has_table(type_id) {
                let maps = self.world.component_maps@;
                let i0 = crate::table::kv_first_index(maps, type_id);
                crate::table::lemma_kv_index_props(maps, type_id);
            }
        }
        r
    }

    /// The entities whose component of the given type the comparator
    /// accepts, in table order.
    pub fn entities_with<F: Fn(&C) -> bool>(&self, type_id: u64, comparator: F) -> (r: Vec<
        Entity,
    >)
        requires
            self.wf(),
            self.has_table(type_id),
            forall|v: &C| #[trigger] comparator.requires((v,)),
        ensures
            ({
                let t = self.table(type_id);
                &&& forall|i: int, j: int| 0 <= i < j < r@.len() ==> r@[i] != r@[j]
                &&& forall|i: int|
                    0 <= i < r@.len() ==> crate::table::kv_contains(t, #[trigger] r@[i])
                        && call_ensures(comparator, (&kv_get(t, r@[i]),), true)
                &&& forall|j: int|
                    0 <= j < t.len() && !r@.contains(#[trigger] t[j].0) ==> call_ensures(
                        comparator,
                        (&t[j].1,),
                        false,
                    )
            }),
    {
        let table = match self.query(type_id) {
            Some(t) => t,
            None => {
                proof {
                    assert(false);
                }
                vstd::pervasive::unreached()
            },
        };
        let ghost ts = self.table(type_id);
        let n = table.len();
        let mut r: Vec<Entity> = Vec::new();
        let mut i: usize = 0;
        while i < n
            invariant
                self.wf(),
                table@ == ts,
                table.wf(),
                n == ts.len(),
                i <= n,
                forall|v: &C| #[trigger] comparator.requires((v,)),
                forall|a: int, b: int| 0 <= a < b < r@.len() ==> r@[a] != r@[b],
                forall|a: int|
                    0 <= a < r@.len() ==> crate::table::kv_contains(ts, #[trigger] r@[a])
                        && call_ensures(comparator, (&kv_get(ts, r@[a]),), true),
                forall|a: int|
                    0 <= a < r@.len() ==> exists|j: int|
                        0 <= j < i && (#[trigger] ts[j]).0 == (#[trigger] r@[a]),
                forall|j: int|
                    0 <= j < i && !r@.contains(#[trigger] ts[j].0) ==> call_ensures(
                        comparator,
                        (&ts[j].1,),
                        false,
                    ),
            decreases n - i,
        {
            let e = table.entity_at(i);
            let v = table.value_at(i);
            let accepted = comparator(v);
            proof {
                crate::table::lemma_kv_scan_first(ts, i as int);
            }
            let ghost r_prev = r@;
            if accepted {
                r.push(e);
                proof {
                    assert forall|a: int, b: int| 0 <= a < b < r@.len() implies r@[a] != r@[b] by {
                        if b == r_prev.len() {
                            let w = choose|w: int| 0 <= w < i && ts[w].0 == r_prev[a];
                            assert(ts[w].0 != ts[i as int].0);
                        }
                    }
                    assert forall|j: int|
                        0 <= j < i + 1 && !r@.contains(#[trigger] ts[j].0) implies call_ensures(
                        comparator,
                        (&ts[j].1,),
                        false,
                    ) by {
                        if j < i {
                            if r_prev.contains(ts[j].0) {
                                let w = choose|w: int|
                                    0 <= w < r_prev.len() && r_prev[w] == ts[j].0;
                                assert(r@[w] == ts[j].0);
                            }
                        } else {
                            assert(r@[r_prev.len() as int] == ts[j].0);
                        }
                    }
                }
            } else {
                proof {
                    assert(call_ensures(comparator, (&ts[i as int].1,), false));
                    assert forall|j: int|
                        0 <= j < i + 1 && !r@.contains(#[trigger] ts[j].0) implies call_ensures(
                        comparator,
                        (&ts[j].1,),
                        false,
                    ) by {}
                }
            }
            i += 1;
        }
        r
    }

    /// Borrow the table of one component type exclusively, if it
    /// exists. The registry keeps its shape: only the borrowed
    /// table's entry changes, to whatever the caller leaves in it.
    pub fn query_mut(&mut self, type_id: u64) -> (r: Option<&mut ComponentTable<C>>)
        requires
            old(self).wf(),
        ensures
            old(self).has_table(type_id) <==> r is Some,
            r is None ==> *final(self) == *old(self),
            r matches Some(m) ==> {
                &&& m@ == old(self).table(type_id)
                &&& m.wf()
                &&& final(self).world.component_maps@ == old(self).world.component_maps@.update(
                    crate::table::kv_first_index(old(self).world.component_maps@, type_id),
                    (type_id, *final(m)),
                )
                &&& final(self).world.entity_count == old(self).world.entity_count
                &&& final(self).world.num_entities == old(self).world.num_entities
            },
    {
        proof {
            if old(self).has_table(type_id) {
                let maps = old(self).world.component_maps@;
                crate::table::lemma_kv_index_props(maps, type_id);
            }
        }
        self.world.borrow_component_map_mut(type_id)
    }
}

} // verus!
