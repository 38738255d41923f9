//! The world: an entity allocator plus a registry of component
//! tables, one table per component type identifier.
//!
//! Entity identities are issued by a counter that only ever grows, so
//! an identity is never reused. The registry is append-only: a table,
//! once created, stays registered even when it becomes empty.

use vstd::prelude::*;

use crate::table::ComponentTable;
use crate::table::kv_contains;
use crate::table::kv_first_index;
use crate::table::kv_get;
use crate::table::kv_insert;
use crate::table::kv_remove;
use crate::table::kv_wf;
use crate::table::lemma_kv_absent;
use crate::table::lemma_kv_index_props;
use crate::table::lemma_kv_insert_frame;
use crate::table::lemma_kv_scan;

verus! {

/// An entity identity: an opaque index into the component tables.
pub type Entity = usize;

/// The world. `C` is the component universe: the single type whose
/// values the tables hold, distinguished by a caller-chosen type
/// identifier per table.
pub struct World<C> {
    pub entity_count: Entity,
    pub num_entities: Entity,
    pub component_maps: Vec<(u64, ComponentTable<C>)>,
}

impl<C> World<C> {
    /// Registered type identifiers are distinct and every table has
    /// distinct entity keys.
    pub open spec fn wf(&self) -> bool {
        &&& kv_wf(self.component_maps@)
        &&& forall|i: int|
            0 <= i < self.component_maps@.len() ==> (#[trigger] self.component_maps@[i].1).wf()
    }

    /// A table for the given type identifier exists.
    pub open spec fn has_table(&self, type_id: u64) -> bool {
        kv_contains(self.component_maps@, type_id)
    }

    /// The table registered for the given type identifier.
    pub open spec fn table(&self, type_id: u64) -> Seq<(Entity, C)> {
        kv_get(self.component_maps@, type_id)@
    }

    /// An empty world: no entities issued, no tables registered.
    pub fn new() -> (r: World<C>)
        ensures
            r.entity_count == 0,
            r.num_entities == 0,
            r.component_maps@.len() == 0,
            r.wf(),
    {
        World { entity_count: 0, num_entities: 0, component_maps: Vec::new() }
    }

    /// Issue a previously unused entity identity and count it live.
    pub fn new_entity(&mut self) -> (r: Entity)
        requires
            old(self).wf(),
            old(self).entity_count < usize::MAX,
            old(self).num_entities < usize::MAX,
        ensures
            r == old(self).entity_count,
            final(self).entity_count == old(self).entity_count + 1,
            final(self).num_entities == old(self).num_entities + 1,
            final(self).component_maps@ == old(self).component_maps@,
            final(self).wf(),
    {
        let entity_id = self.entity_count;
        self.entity_count = self.entity_count + 1;
        self.num_entities = self.num_entities + 1;
        entity_id
    }

    /// How many entities are live.
    pub fn get_num_entities(&self) -> (r: Entity)
        ensures
            r == self.num_entities,
    {
        self.num_entities
    }

    /// Drop the entity's entry from every table and count it gone.
    /// No existence check is made: a table without the entity is left
    /// as it is.
    pub fn remove_entity(&mut self, entity: Entity)
        requires
            old(self).wf(),
            old(self).num_entities >= 1,
        ensures
            final(self).entity_count == old(self).entity_count,
            final(self).num_entities == old(self).num_entities - 1,
            final(self).component_maps@.len() == old(self).component_maps@.len(),
            forall|i: int|
                0 <= i < old(self).component_maps@.len() ==> {
                    &&& (#[trigger] final(self).component_maps@[i]).0 == old(
                        self,
                    ).component_maps@[i].0
                    &&& final(self).component_maps@[i].1@ == kv_remove(
                        old(self).component_maps@[i].1@,
                        entity,
                    )
                },
            final(self).wf(),
    {
        let n = self.component_maps.len();
        let mut i: usize = 0;
        while i < n
            invariant
                old(self).wf(),
                n == self.component_maps@.len(),
                n == old(self).component_maps@.len(),
                i <= n,
                self.entity_count == old(self).entity_count,
                self.num_entities == old(self).num_entities,
                forall|j: int|
                    0 <= j < n ==> (#[trigger] self.component_maps@[j]).0 == old(
                        self,
                    ).component_maps@[j].0,
                forall|j: int|
                    0 <= j < i ==> (#[trigger] self.component_maps@[j]).1@ == kv_remove(
                        old(self).component_maps@[j].1@,
                        entity,
                    ),
                forall|j: int|
                    i <= j < n ==> (#[trigger] self.component_maps@[j]).1@ == old(
                        self,
                    ).component_maps@[j].1@,
                self.wf(),
            decreases n - i,
        {
            let tables = &mut self.component_maps;
            let entry = &mut tables[i];
            entry.1.remove(entity);
            i += 1;
        }
        self.num_entities = self.num_entities - 1;
    }

    /// Insert (or overwrite) the entity's component in the table for
    /// the given type identifier, creating the table on first use.
    pub fn add_component_to_entity(&mut self, entity: Entity, type_id: u64, component: C)
        requires
            old(self).wf(),
        ensures
            final(self).entity_count == old(self).entity_count,
            final(self).num_entities == old(self).num_entities,
            final(self).wf(),
            final(self).has_table(type_id),
            final(self).table(type_id) == kv_insert(
                if old(self).has_table(type_id) {
                    old(self).table(type_id)
                } else {
                    Seq::<(Entity, C)>::empty()
                },
                entity,
                component,
            ),
            forall|t: u64|
                t != type_id ==> #[trigger] final(self).has_table(t) == old(self).has_table(t),
            forall|t: u64|
                t != type_id && old(self).has_table(t) ==> #[trigger] final(self).table(t) == old(
                    self,
                ).table(t),
    {
        let n = self.component_maps.len();
        let mut i: usize = 0;
        while i < n
            invariant
                self == old(self),
                old(self).wf(),
                n == self.component_maps@.len(),
                i <= n,
                forall|j: int| 0 <= j < i ==> (#[trigger] self.component_maps@[j]).0 != type_id,
            decreases n - i,
        {
            let found = self.component_maps[i].0 == type_id;
            if found {
                proof {
                    lemma_kv_scan(self.component_maps@, type_id, i as int);
                }
                let tables = &mut self.component_maps;
                let entry = &mut tables[i];
                entry.1.insert(entity, component);
                proof {
                    let updated = self.component_maps@[i as int].1;
                    assert(self.component_maps@ =~= kv_insert(
                        old(self).component_maps@,
                        type_id,
                        updated,
                    ));
                    lemma_kv_insert_frame(old(self).component_maps@, type_id, updated);
                }
                return ;
            }
            i += 1;
        }
        proof {
            lemma_kv_absent(self.component_maps@, type_id);
        }
        let mut table = ComponentTable::new();
        table.insert(entity, component);
        self.component_maps.push((type_id, table));
        proof {
            let pushed = self.component_maps@[n as int].1;
            assert(self.component_maps@ =~= kv_insert(
                old(self).component_maps@,
                type_id,
                pushed,
            ));
            lemma_kv_insert_frame(old(self).component_maps@, type_id, pushed);
        }
    }

    /// Borrow the table for a type identifier, if one exists.
    pub fn borrow_component_map(&self, type_id: u64) -> (r: Option<&ComponentTable<C>>)
        requires
            self.wf(),
        ensures
            match r {
                Some(t) => self.has_table(type_id) && *t == kv_get(self.component_maps@, type_id),
                None => !self.has_table(type_id),
            },
    {
        let n = self.component_maps.len();
        let mut i: usize = 0;
        while i < n
            invariant
                n == self.component_maps@.len(),
                i <= n,
                forall|j: int| 0 <= j < i ==> (#[trigger] self.component_maps@[j]).0 != type_id,
            decreases n - i,
        {
            if self.component_maps[i].0 == type_id {
                proof {
                    lemma_kv_scan(self.component_maps@, type_id, i as int);
                }
                return Some(&self.component_maps[i].1);
            }
            i += 1;
        }
        proof {
            lemma_kv_absent(self.component_maps@, type_id);
        }
        None
    }

    /// Borrow the table for a type identifier exclusively, if one
    /// exists. The rest of the world is untouched by whatever the
    /// caller does through the borrow.
    pub fn borrow_component_map_mut(&mut self, type_id: u64) -> (r: Option<
        &mut ComponentTable<C>,
    >)
        requires
            old(self).wf(),
        ensures
            old(self).has_table(type_id) <==> r is Some,
            r is None ==> *final(self) == *old(self),
            r matches Some(m) ==> {
                &&& *m == kv_get(old(self).component_maps@, type_id)
                &&& final(self).component_maps@ == old(self).component_maps@.update(
                    kv_first_index(old(self).component_maps@, type_id),
                    (type_id, *final(m)),
                )
                &&& final(self).entity_count == old(self).entity_count
                &&& final(self).num_entities == old(self).num_entities
            },
    {
        let n = self.component_maps.len();
        let mut i: usize = 0;
        while i < n
            invariant
                self == old(self),
                old(self).wf(),
                n == self.component_maps@.len(),
                i <= n,
                forall|j: int| 0 <= j < i ==> (#[trigger] self.component_maps@[j]).0 != type_id,
            decreases n - i,
        {
            let found = self.component_maps[i].0 == type_id;
            if found {
                proof {
                    lemma_kv_scan(self.component_maps@, type_id, i as int);
                }
                let tables = &mut self.component_maps;
                let entry = &mut tables[i];
                return Some(&mut entry.1);
            }
            i += 1;
        }
        proof {
            lemma_kv_absent(self.component_maps@, type_id);
        }
        None
    }
}

} // verus!
