use crate::components::{Component, ComponentType, GLTFModel, Position, Rotation, Scale};
use crate::ecs::{fetch, has_table, model_of};
use crate::error::WorldError;
use crate::model::WorldModel;
use ecs_rust::entity_manager::EntityManager;
use vstd::prelude::*;

verus! {

/// The one way in which a system reads a world: a query by component kind and
/// entity id that hands back a copy, never a reference into the tables.
///
/// An accessor borrows the world it reads. It cannot be kept beyond the call
/// it was made for, and while it exists the world cannot change, so a query
/// never sees a stale or half-written table.
pub struct Accessor<'a> {
    manager: &'a EntityManager,
}

impl<'a> View for Accessor<'a> {
    type V = WorldModel;

    /// The world that this accessor reads.
    closed spec fn view(&self) -> WorldModel {
        model_of(*self.manager)
    }
}

impl<'a> Accessor<'a> {
    pub(crate) fn new(manager: &'a EntityManager) -> (accessor: Self)
        ensures
            accessor@ == model_of(*manager),
    {
        Accessor { manager }
    }

    /// Whether the world has a table for `component_type`.
    pub fn is_registered(&self, component_type: ComponentType) -> (registered: bool)
        ensures
            registered == self@.is_registered(component_type),
    {
        match component_type {
            ComponentType::Position => has_table::<Position>(self.manager),
            ComponentType::Scale => has_table::<Scale>(self.manager),
            ComponentType::Rotation => has_table::<Rotation>(self.manager),
            ComponentType::GLTFModel => has_table::<GLTFModel>(self.manager),
        }
    }

    /// The component of kind `component_type` on entity `entity_id`, or
    /// nothing if the entity has none. An id that is dead or was never handed
    /// out has none.
    ///
    /// To ask for a kind without a table is a mistake of the caller, which
    /// the `requires` rules out; `try_get_component` reports it instead.
    pub fn get_component(&self, component_type: ComponentType, entity_id: usize) -> (found: Option<
        Component,
    >)
        requires
            self@.is_registered(component_type),
        ensures
            found == self@.query(component_type, entity_id),
    {
        match component_type {
            ComponentType::Position => match fetch::<Position>(self.manager, entity_id) {
                Some(value) => Some(Component::from(value)),
                None => None,
            },
            ComponentType::Scale => match fetch::<Scale>(self.manager, entity_id) {
                Some(value) => Some(Component::from(value)),
                None => None,
            },
            ComponentType::Rotation => match fetch::<Rotation>(self.manager, entity_id) {
                Some(value) => Some(Component::from(value)),
                None => None,
            },
            ComponentType::GLTFModel => match fetch::<GLTFModel>(self.manager, entity_id) {
                Some(value) => Some(Component::from(value)),
                None => None,
            },
        }
    }

    /// As `get_component`, for any kind: a kind without a table gives
    /// `UnregisteredComponentType`, a kind that the entity lacks gives
    /// `Ok(None)`.
    pub fn try_get_component(&self, component_type: ComponentType, entity_id: usize) -> (found:
        Result<Option<Component>, WorldError>)
        ensures
            found == (if self@.is_registered(component_type) {
                Ok(self@.query(component_type, entity_id))
            } else {
                Err(WorldError::UnregisteredComponentType)
            }),
    {
        if self.is_registered(component_type) {
            Ok(self.get_component(component_type, entity_id))
        } else {
            Err(WorldError::UnregisteredComponentType)
        }
    }
}

/// A unit of behaviour that a world runs once per frame.
///
/// A system gets no reference into the world: for the length of one `update`
/// it holds an accessor, and pulls through it whatever it wants to know.
pub trait System: Sized {
    /// Whether one frame's work in a world that holds `world` may take this
    /// system from `pre` to `post`. A system that promises nothing about its
    /// own state leaves this as it is.
    open spec fn updated(pre: Self, world: WorldModel, post: Self) -> bool {
        true
    }

    /// One frame's work.
    fn update(&mut self, get_component: &Accessor<'_>)
        requires
            get_component@.valid(),
        ensures
            Self::updated(*old(self), get_component@, *final(self)),
    ;
}

} // verus!
