use crate::components::{Component, ComponentType};
use crate::error::WorldError;
use vstd::prelude::*;

verus! {

/// What a world holds, as mathematics.
///
/// Entity ids index `slots`: an id is live when its slot exists and is `true`.
/// Ids of removed entities wait in `free`, oldest first, and are handed out
/// again from the front before a new slot is opened. `components` maps a kind
/// and an entity id to the component of that kind on that entity.
#[verifier::ext_equal]
pub struct WorldModel {
    pub slots: Seq<bool>,
    pub free: Seq<usize>,
    pub registered: Set<ComponentType>,
    pub components: Map<(ComponentType, usize), Component>,
}

/// `components` without any entry of entity `id`.
pub open spec fn purge(
    components: Map<(ComponentType, usize), Component>,
    id: usize,
) -> Map<(ComponentType, usize), Component> {
    Map::new(
        |k: (ComponentType, usize)| components.contains_key(k) && k.1 != id,
        |k: (ComponentType, usize)| components[k],
    )
}

impl WorldModel {
    /// The world before anything was registered or created.
    pub open spec fn empty() -> WorldModel {
        WorldModel {
            slots: Seq::empty(),
            free: Seq::empty(),
            registered: Set::empty(),
            components: Map::empty(),
        }
    }

    pub open spec fn is_alive(self, id: usize) -> bool {
        id < self.slots.len() && self.slots[id as int]
    }

    pub open spec fn is_registered(self, tag: ComponentType) -> bool {
        self.registered.contains(tag)
    }

    /// What a query for `(tag, id)` yields: the component, or nothing.
    pub open spec fn query(self, tag: ComponentType, id: usize) -> Option<Component> {
        if self.components.contains_key((tag, id)) {
            Some(self.components[(tag, id)])
        } else {
            None
        }
    }

    /// The id that the next created entity gets: the longest-waiting freed id,
    /// or else the first id never used.
    pub open spec fn next_id(self) -> usize {
        if self.free.len() > 0 {
            self.free[0]
        } else {
            self.slots.len() as usize
        }
    }

    /// The world after one entity was created.
    pub open spec fn create(self) -> WorldModel {
        if self.free.len() > 0 {
            WorldModel {
                slots: self.slots.update(self.free[0] as int, true),
                free: self.free.subrange(1, self.free.len() as int),
                ..self
            }
        } else {
            WorldModel { slots: self.slots.push(true), ..self }
        }
    }

    /// The world after the live entity `id` was removed, its components with it.
    pub open spec fn remove(self, id: usize) -> WorldModel {
        WorldModel {
            slots: self.slots.update(id as int, false),
            free: self.free.push(id),
            components: purge(self.components, id),
            ..self
        }
    }

    /// The world after a table for `tag` was registered.
    pub open spec fn register(self, tag: ComponentType) -> WorldModel {
        WorldModel { registered: self.registered.insert(tag), ..self }
    }

    /// The world after `component` was attached to `id`, in place of any
    /// component of that kind that `id` had.
    pub open spec fn attach(self, id: usize, component: Component) -> WorldModel {
        WorldModel {
            components: self.components.insert((component.tag(), id), component),
            ..self
        }
    }

    /// Whether attaching `component` to `id` as a `tag` is accepted, and if not,
    /// why not. The payload's kind is looked at first, then the table, then
    /// the entity.
    pub open spec fn admits(self, id: usize, tag: ComponentType, component: Component) -> Result<
        (),
        WorldError,
    > {
        if component.tag() != tag {
            Err(WorldError::MalformedComponentPayload)
        } else if !self.is_registered(tag) {
            Err(WorldError::UnregisteredComponentType)
        } else if !self.is_alive(id) {
            Err(WorldError::InvalidEntity)
        } else {
            Ok(())
        }
    }

    /// What holds of every world that was built through the operations above:
    /// ids waiting for reuse are dead and wait once, and a component sits only
    /// on a live entity, in a registered table, under its own kind.
    pub open spec fn valid(self) -> bool {
        &&& self.slots.len() <= usize::MAX
        &&& self.free.no_duplicates()
        &&& forall|i: int|
            0 <= i < self.free.len() ==> (#[trigger] self.free[i]) < self.slots.len()
                && !self.slots[self.free[i] as int]
        &&& forall|k: (ComponentType, usize)| #[trigger]
            self.components.contains_key(k) ==> {
                &&& self.is_alive(k.1)
                &&& self.is_registered(k.0)
                &&& self.components[k].tag() == k.0
            }
    }

    /// The empty world is valid.
    pub proof fn lemma_empty_valid()
        ensures
            WorldModel::empty().valid(),
    {
    }

    /// Registering a table keeps a world valid and touches nothing else.
    pub proof fn lemma_register_valid(self, tag: ComponentType)
        requires
            self.valid(),
        ensures
            self.register(tag).valid(),
            self.register(tag).is_registered(tag),
            forall|t: ComponentType, id: usize| self.register(tag).query(t, id) == self.query(t, id),
            forall|id: usize| self.register(tag).is_alive(id) == self.is_alive(id),
    {
    }

    /// Registering a table twice is the same as registering it once.
    pub proof fn lemma_register_idempotent(self, tag: ComponentType)
        ensures
            self.register(tag).register(tag) == self.register(tag),
    {
    }

    /// Creating an entity keeps a world valid, as long as an id is left.
    pub proof fn lemma_create_valid(self)
        requires
            self.valid(),
            self.free.len() == 0 ==> self.slots.len() < usize::MAX,
        ensures
            self.create().valid(),
    {
    }

    /// A created entity gets an id that no live entity has: two entities that
    /// are alive at the same time never share an id. Every entity that was
    /// alive stays alive, and nothing else comes to life.
    pub proof fn lemma_created_id_is_fresh(self)
        requires
            self.valid(),
            self.free.len() == 0 ==> self.slots.len() < usize::MAX,
        ensures
            !self.is_alive(self.next_id()),
            self.create().is_alive(self.next_id()),
            forall|other: usize| self.is_alive(other) ==> other != self.next_id(),
            forall|other: usize|
                self.create().is_alive(other) <==> (self.is_alive(other) || other
                    == self.next_id()),
    {
    }

    /// Two entities created one after the other get different ids.
    pub proof fn lemma_successive_ids_differ(self)
        requires
            self.valid(),
            self.free.len() == 0 ==> self.slots.len() < usize::MAX,
            self.create().free.len() == 0 ==> self.create().slots.len() < usize::MAX,
        ensures
            self.create().next_id() != self.next_id(),
    {
    }

    /// A created entity starts without components, whoever had its id before,
    /// and creating it touches no other entity's components.
    pub proof fn lemma_created_entity_is_bare(self)
        requires
            self.valid(),
        ensures
            forall|tag: ComponentType| self.create().query(tag, self.next_id()) is None,
            forall|tag: ComponentType, id: usize| self.create().query(tag, id) == self.query(tag, id),
    {
    }

    /// Removing a live entity keeps a world valid.
    pub proof fn lemma_remove_valid(self, id: usize)
        requires
            self.valid(),
            self.is_alive(id),
        ensures
            self.remove(id).valid(),
    {
    }

    /// After an entity was removed it is dead, so that removing it again is
    /// refused; a query for any kind of component on it finds nothing; and
    /// every other entity is as it was.
    pub proof fn lemma_removed_entity_is_gone(self, id: usize)
        requires
            self.valid(),
            self.is_alive(id),
        ensures
            !self.remove(id).is_alive(id),
            forall|tag: ComponentType| self.remove(id).query(tag, id) is None,
            forall|other: usize|
                other != id ==> self.remove(id).is_alive(other) == self.is_alive(other),
            forall|tag: ComponentType, other: usize|
                other != id ==> self.remove(id).query(tag, other) == self.query(tag, other),
    {
    }

    /// In a valid world an entity that is not alive has no components: a
    /// query for it finds nothing, however long ago it was removed.
    pub proof fn lemma_dead_entity_holds_nothing(self, tag: ComponentType, id: usize)
        requires
            self.valid(),
            !self.is_alive(id),
        ensures
            self.query(tag, id) is None,
    {
    }

    /// The id of a removed entity is handed out again only after every id that
    /// was freed before it, and then to an entity without components.
    pub proof fn lemma_removed_id_waits_last(self, id: usize)
        requires
            self.valid(),
            self.is_alive(id),
        ensures
            self.remove(id).free.last() == id,
            self.free.len() == 0 ==> self.remove(id).next_id() == id,
            self.free.len() > 0 ==> self.remove(id).next_id() == self.next_id(),
            forall|tag: ComponentType|
                self.remove(id).create().query(tag, self.remove(id).next_id()) is None,
    {
    }

    /// Attaching an admitted component keeps a world valid.
    pub proof fn lemma_attach_valid(self, id: usize, component: Component)
        requires
            self.valid(),
            self.admits(id, component.tag(), component) is Ok,
        ensures
            self.attach(id, component).valid(),
    {
    }

    /// A query right after an attach yields the attached component, and every
    /// other query yields what it yielded before.
    pub proof fn lemma_attach_then_query(self, id: usize, component: Component)
        ensures
            self.attach(id, component).query(component.tag(), id) == Some(component),
            forall|tag: ComponentType, other: usize|
                (tag, other) != (component.tag(), id) ==> self.attach(id, component).query(
                    tag,
                    other,
                ) == self.query(tag, other),
    {
    }

    /// Attaching a second component of the same kind to the same entity
    /// replaces the first: the world is the one in which only the second was
    /// ever attached.
    pub proof fn lemma_attach_overwrites(self, id: usize, first: Component, second: Component)
        requires
            first.tag() == second.tag(),
        ensures
            self.attach(id, first).attach(id, second) == self.attach(id, second),
            self.attach(id, first).attach(id, second).query(second.tag(), id) == Some(second),
    {
    }

    /// A query tells a kind without a table from a kind that the entity
    /// lacks: in a valid world the first never finds anything, and only the
    /// second can start to find something after an attach.
    pub proof fn lemma_unregistered_holds_nothing(self, tag: ComponentType, id: usize)
        requires
            self.valid(),
            !self.is_registered(tag),
        ensures
            self.query(tag, id) is None,
            forall|component: Component| self.admits(id, tag, component) is Err,
    {
    }
}

} // verus!
