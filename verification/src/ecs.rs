//! The boundary to `ecs_rust`, which keeps the entities and the component
//! tables. Nothing in this file is proved: each contract restates what the
//! named function of `ecs_rust` does, and the rest of the crate is proved
//! from these contracts.

use crate::components::{Component, ComponentType, GLTFModel, Position, Rotation, Scale};
use crate::model::{purge, WorldModel};
use ecs_rust::entity_manager::EntityManager;
use vstd::prelude::*;

verus! {

/// `ecs_rust::entity_manager::EntityManager`, opaque to the verifier.
#[verifier::external_type_specification]
#[verifier::external_body]
pub struct ExEntityManager(ecs_rust::entity_manager::EntityManager);

/// One flag for each entity id that a manager has ever handed out, in id
/// order: whether the entity is alive.
pub uninterp spec fn entity_slots(m: EntityManager) -> Seq<bool>;

/// The ids of removed entities that a manager will hand out again, the one
/// that has waited longest first.
pub uninterp spec fn free_ids(m: EntityManager) -> Seq<usize>;

/// The component kinds for which a manager has a table.
pub uninterp spec fn registered_tags(m: EntityManager) -> Set<ComponentType>;

/// The components in a manager's tables, by kind and entity id.
pub uninterp spec fn stored(m: EntityManager) -> Map<(ComponentType, usize), Component>;

/// Everything a manager holds.
pub open spec fn model_of(m: EntityManager) -> WorldModel {
    WorldModel {
        slots: entity_slots(m),
        free: free_ids(m),
        registered: registered_tags(m),
        components: stored(m),
    }
}

/// Whether the entity `id` of a manager is alive.
pub open spec fn alive_in(m: EntityManager, id: usize) -> bool {
    id < entity_slots(m).len() && entity_slots(m)[id as int]
}

/// A payload type with a table of its own in the manager. The manager tells
/// tables apart by payload type and the contracts below by `tag`, so they
/// rest on the four impls giving four different tags.
pub trait Payload: Copy {
    /// The kind under which this type is stored.
    spec fn tag() -> ComponentType;

    /// A value of this type as a component.
    spec fn wrap(self) -> Component;
}

impl ecs_rust::component::Component for Position {

}

impl ecs_rust::component::Component for Scale {

}

impl ecs_rust::component::Component for Rotation {

}

impl ecs_rust::component::Component for GLTFModel {

}

impl Payload for Position {
    open spec fn tag() -> ComponentType {
        ComponentType::Position
    }

    open spec fn wrap(self) -> Component {
        Component::Position(self)
    }
}

impl Payload for Scale {
    open spec fn tag() -> ComponentType {
        ComponentType::Scale
    }

    open spec fn wrap(self) -> Component {
        Component::Scale(self)
    }
}

impl Payload for Rotation {
    open spec fn tag() -> ComponentType {
        ComponentType::Rotation
    }

    open spec fn wrap(self) -> Component {
        Component::Rotation(self)
    }
}

impl Payload for GLTFModel {
    open spec fn tag() -> ComponentType {
        ComponentType::GLTFModel
    }

    open spec fn wrap(self) -> Component {
        Component::GLTFModel(self)
    }
}

/// `EntityManager::new`: a manager without entities, tables or components.
#[verifier::external_body]
pub(crate) fn new_manager() -> (m: EntityManager)
    ensures
        entity_slots(m).len() == 0,
        free_ids(m).len() == 0,
        registered_tags(m) == Set::<ComponentType>::empty(),
        stored(m) == (Map::<(ComponentType, usize), Component>::empty()),
{
    EntityManager::new()
}

/// `EntityManager::create_entity`: hands out the id at the front of the free
/// queue and marks its slot alive, or, when no id waits, opens a new slot at
/// the end and hands out its index. Tables and components are not touched.
/// The call indexes the slots by the queued id, hence the `requires`.
#[verifier::external_body]
pub(crate) fn create(m: &mut EntityManager) -> (id: usize)
    requires
        free_ids(*old(m)).len() > 0 ==> free_ids(*old(m))[0] < entity_slots(*old(m)).len(),
    ensures
        registered_tags(*final(m)) == registered_tags(*old(m)),
        stored(*final(m)) == stored(*old(m)),
        free_ids(*old(m)).len() > 0 ==> id == free_ids(*old(m))[0] && entity_slots(*final(m))
            == entity_slots(*old(m)).update(id as int, true) && free_ids(*final(m)) == free_ids(
            *old(m),
        ).subrange(1, free_ids(*old(m)).len() as int),
        free_ids(*old(m)).len() == 0 ==> id == entity_slots(*old(m)).len() && entity_slots(
            *final(m),
        ) == entity_slots(*old(m)).push(true) && free_ids(*final(m)) == free_ids(*old(m)),
{
    m.create_entity()
}

/// `EntityManager::remove_entity`: takes the components of `id` out of every
/// table. If `id` is alive, its slot is marked dead and `id` joins the free
/// queue at the back; if not, entities and queue stay as they are.
#[verifier::external_body]
pub(crate) fn remove(m: &mut EntityManager, id: usize)
    ensures
        registered_tags(*final(m)) == registered_tags(*old(m)),
        stored(*final(m)) == purge(stored(*old(m)), id),
        alive_in(*old(m), id) ==> entity_slots(*final(m)) == entity_slots(*old(m)).update(
            id as int,
            false,
        ) && free_ids(*final(m)) == free_ids(*old(m)).push(id),
        !alive_in(*old(m), id) ==> entity_slots(*final(m)) == entity_slots(*old(m)) && free_ids(
            *final(m),
        ) == free_ids(*old(m)),
{
    m.remove_entity(id);
}

/// `EntityManager::register`: makes an empty table for `T` unless there is
/// one. Entities and components are not touched.
#[verifier::external_body]
pub(crate) fn register<T: Payload + ecs_rust::component::Component + 'static>(
    m: &mut EntityManager,
)
    ensures
        entity_slots(*final(m)) == entity_slots(*old(m)),
        free_ids(*final(m)) == free_ids(*old(m)),
        registered_tags(*final(m)) == registered_tags(*old(m)).insert(T::tag()),
        stored(*final(m)) == stored(*old(m)),
{
    m.register::<T>();
}

/// `EntityManager::borrow_components`: gives the table of `T` if there is
/// one; the result says whether it did.
#[verifier::external_body]
pub(crate) fn has_table<T: Payload + ecs_rust::component::Component + 'static>(
    m: &EntityManager,
) -> (r: bool)
    ensures
        r == registered_tags(*m).contains(T::tag()),
{
    m.borrow_components::<T>().is_some()
}

/// `EntityManager::add_component_to_entity`: puts `value` into the table of
/// `T` under `id` if `id` has no entry there, and does nothing if it has one.
/// Whether `id` is alive is not looked at. Without a table for `T` the call
/// prints a line and does nothing, which the `requires` leaves out.
#[verifier::external_body]
pub(crate) fn insert_new<T: Payload + ecs_rust::component::Component + 'static>(
    m: &mut EntityManager,
    id: usize,
    value: T,
)
    requires
        registered_tags(*old(m)).contains(T::tag()),
    ensures
        entity_slots(*final(m)) == entity_slots(*old(m)),
        free_ids(*final(m)) == free_ids(*old(m)),
        registered_tags(*final(m)) == registered_tags(*old(m)),
        stored(*old(m)).contains_key((T::tag(), id)) ==> stored(*final(m)) == stored(*old(m)),
        !stored(*old(m)).contains_key((T::tag(), id)) ==> stored(*final(m)) == stored(
            *old(m),
        ).insert((T::tag(), id), value.wrap()),
{
    m.add_component_to_entity(id, value);
}

/// `EntityManager::borrow_component`: the entry of `id` in the table of `T`,
/// copied out; nothing if `id` has no entry or `T` has no table.
#[verifier::external_body]
pub(crate) fn fetch<T: Payload + ecs_rust::component::Component + 'static>(
    m: &EntityManager,
    id: usize,
) -> (r: Option<T>)
    ensures
        r is Some <==> stored(*m).contains_key((T::tag(), id)),
        r is Some ==> stored(*m)[(T::tag(), id)] == r->0.wrap(),
{
    m.borrow_component::<T>(id).copied()
}

/// `EntityManager::borrow_component_mut`: the entry of `id` in the table of
/// `T`, to be written in place; nothing if `id` has no entry or `T` has no
/// table. Whatever the caller leaves in the entry is what the table holds
/// afterwards; nothing else changes.
#[verifier::external_body]
pub(crate) fn entry_mut<T: Payload + ecs_rust::component::Component + 'static>(
    m: &mut EntityManager,
    id: usize,
) -> (r: Option<&mut T>)
    ensures
        r is Some <==> stored(*old(m)).contains_key((T::tag(), id)),
        r is Some ==> stored(*old(m))[(T::tag(), id)] == (*r->0).wrap(),
        r is Some ==> stored(*final(m)) == stored(*old(m)).insert(
            (T::tag(), id),
            (*final(r->0)).wrap(),
        ),
        r is None ==> stored(*final(m)) == stored(*old(m)),
        entity_slots(*final(m)) == entity_slots(*old(m)),
        free_ids(*final(m)) == free_ids(*old(m)),
        registered_tags(*final(m)) == registered_tags(*old(m)),
{
    m.borrow_component_mut::<T>(id)
}

} // verus!
