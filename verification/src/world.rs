use crate::components::{Component, ComponentType, GLTFModel, Position, Rotation, Scale};
use crate::ecs::{create, entry_mut, insert_new, model_of, new_manager, register, remove};
use crate::error::WorldError;
use crate::model::WorldModel;
use crate::system::{Accessor, System};
use ecs_rust::entity_manager::EntityManager;
use vstd::prelude::*;

verus! {

/// A world: entities, their components, and the systems that run over them.
///
/// Entity ids are recycled: the id of a removed entity is handed out again,
/// the longest-waiting first, before a new id is opened. A removed entity's
/// components go with it, so that whoever gets its id next starts bare.
pub struct AwWorld<S: System> {
    manager: EntityManager,
    /// One flag per id ever handed out: whether the entity is alive.
    live: Vec<bool>,
    /// Whether a frame has run, after which no kind can be registered.
    closed: bool,
    systems: Vec<S>,
}

impl<S: System> View for AwWorld<S> {
    type V = WorldModel;

    /// What the world holds.
    closed spec fn view(&self) -> WorldModel {
        model_of(self.manager)
    }
}

impl<S: System> AwWorld<S> {
    /// The systems of this world, in the order in which they were added.
    pub closed spec fn systems(&self) -> Seq<S> {
        self.systems@
    }

    /// Whether a frame has run in this world.
    pub closed spec fn closed(&self) -> bool {
        self.closed
    }

    /// The world is in step with itself: what it holds is valid, and its own
    /// record of who is alive agrees with the tables.
    pub closed spec fn wf(&self) -> bool {
        &&& self@.valid()
        &&& self.live@ == self@.slots
    }

    /// A world without entities, components, systems or registered kinds.
    pub fn new() -> (world: Self)
        ensures
            world.wf(),
            world@ == WorldModel::empty(),
            world.systems() == Seq::<S>::empty(),
            !world.closed(),
    {
        let world = AwWorld {
            manager: new_manager(),
            live: Vec::new(),
            closed: false,
            systems: Vec::new(),
        };
        assert(world.live@ =~= world@.slots);
        world
    }

    /// A world with a table for each of the four kinds.
    pub fn with_included_components() -> (world: Self)
        ensures
            world.wf(),
            world@ == (WorldModel { registered: Set::full(), ..WorldModel::empty() }),
            world.systems() == Seq::<S>::empty(),
            !world.closed(),
    {
        let mut world = Self::new();
        world.register_component_type(ComponentType::Position);
        world.register_component_type(ComponentType::Scale);
        world.register_component_type(ComponentType::Rotation);
        world.register_component_type(ComponentType::GLTFModel);
        world
    }

    /// Whether a frame has run in this world.
    pub fn is_closed(&self) -> (closed: bool)
        ensures
            closed == self.closed(),
    {
        self.closed
    }

    /// Gives the world a table for `component_type`. A kind that has a table
    /// keeps it, with what is in it.
    ///
    /// Kinds are registered before the first frame; afterwards the set of
    /// kinds is fixed.
    pub fn register_component_type(&mut self, component_type: ComponentType)
        requires
            old(self).wf(),
            !old(self).closed(),
        ensures
            final(self).wf(),
            final(self)@ == old(self)@.register(component_type),
            final(self).systems() == old(self).systems(),
            !final(self).closed(),
    {
        match component_type {
            ComponentType::Position => register::<Position>(&mut self.manager),
            ComponentType::Scale => register::<Scale>(&mut self.manager),
            ComponentType::Rotation => register::<Rotation>(&mut self.manager),
            ComponentType::GLTFModel => register::<GLTFModel>(&mut self.manager),
        }
    }

    /// Whether the world has a table for `component_type`.
    pub fn is_registered(&self, component_type: ComponentType) -> (registered: bool)
        ensures
            registered == self@.is_registered(component_type),
    {
        Accessor::new(&self.manager).is_registered(component_type)
    }

    /// Whether `entity_id` is the id of a live entity.
    pub fn is_alive(&self, entity_id: usize) -> (alive: bool)
        requires
            self.wf(),
        ensures
            alive == self@.is_alive(entity_id),
    {
        entity_id < self.live.len() && self.live[entity_id]
    }

    /// Creates an entity without components and returns its id, which no live
    /// entity has.
    pub fn create_entity(&mut self) -> (entity_id: usize)
        requires
            old(self).wf(),
        ensures
            final(self).wf(),
            entity_id == old(self)@.next_id(),
            final(self)@ == old(self)@.create(),
            !old(self)@.is_alive(entity_id),
            final(self)@.is_alive(entity_id),
            forall|component_type: ComponentType|
                final(self)@.query(component_type, entity_id) is None,
            final(self).systems() == old(self).systems(),
            final(self).closed() == old(self).closed(),
    {
        let entity_id = create(&mut self.manager);
        if entity_id < self.live.len() {
            self.live[entity_id] = true;
        } else {
            self.live.push(true);
        }
        proof {
            assert(self.live@ =~= self@.slots);
            assert(self.live.len() == self.live@.len());
        }
        entity_id
    }

    /// Removes the entity `entity_id` and every component on it. An id that
    /// is not alive, because it was never handed out or was removed before,
    /// is refused with `InvalidEntity`, and the world stays as it is.
    pub fn remove_entity(&mut self, entity_id: usize) -> (done: Result<(), WorldError>)
        requires
            old(self).wf(),
        ensures
            final(self).wf(),
            done == (if old(self)@.is_alive(entity_id) {
                Ok(())
            } else {
                Err(WorldError::InvalidEntity)
            }),
            final(self)@ == (if old(self)@.is_alive(entity_id) {
                old(self)@.remove(entity_id)
            } else {
                old(self)@
            }),
            final(self).systems() == old(self).systems(),
            final(self).closed() == old(self).closed(),
    {
        if !self.is_alive(entity_id) {
            return Err(WorldError::InvalidEntity);
        }
        remove(&mut self.manager, entity_id);
        self.live[entity_id] = false;
        Ok(())
    }

    /// Attaches `component` to the entity `entity_id` as its component of
    /// kind `component_type`, in place of the one it had, if any.
    ///
    /// Refused, with the world unchanged: a payload of another kind than
    /// announced (`MalformedComponentPayload`), else a kind without a table
    /// (`UnregisteredComponentType`), else an id that is not alive
    /// (`InvalidEntity`).
    pub fn add_component_to_entity(
        &mut self,
        entity_id: usize,
        component_type: ComponentType,
        component: Component,
    ) -> (done: Result<(), WorldError>)
        requires
            old(self).wf(),
        ensures
            final(self).wf(),
            done == old(self)@.admits(entity_id, component_type, component),
            done is Ok ==> final(self)@ == old(self)@.attach(entity_id, component),
            done is Err ==> final(self)@ == old(self)@,
            final(self).systems() == old(self).systems(),
            final(self).closed() == old(self).closed(),
    {
        if component.component_type() != component_type {
            return Err(WorldError::MalformedComponentPayload);
        }
        if !self.is_registered(component_type) {
            return Err(WorldError::UnregisteredComponentType);
        }
        if !self.is_alive(entity_id) {
            return Err(WorldError::InvalidEntity);
        }
        match component {
            Component::Position(value) => match entry_mut::<Position>(&mut self.manager, entity_id) {
                Some(entry) => {
                    *entry = value;
                },
                None => {
                    insert_new::<Position>(&mut self.manager, entity_id, value);
                },
            },
            Component::Scale(value) => match entry_mut::<Scale>(&mut self.manager, entity_id) {
                Some(entry) => {
                    *entry = value;
                },
                None => {
                    insert_new::<Scale>(&mut self.manager, entity_id, value);
                },
            },
            Component::Rotation(value) => match entry_mut::<Rotation>(&mut self.manager, entity_id) {
                Some(entry) => {
                    *entry = value;
                },
                None => {
                    insert_new::<Rotation>(&mut self.manager, entity_id, value);
                },
            },
            Component::GLTFModel(value) => match entry_mut::<GLTFModel>(
                &mut self.manager,
                entity_id,
            ) {
                Some(entry) => {
                    *entry = value;
                },
                None => {
                    insert_new::<GLTFModel>(&mut self.manager, entity_id, value);
                },
            },
        }
        Ok(())
    }

    /// Adds `system` behind the systems that the world has.
    pub fn add_system(&mut self, system: S)
        ensures
            final(self).systems() == old(self).systems().push(system),
            final(self)@ == old(self)@,
            final(self).wf() == old(self).wf(),
            final(self).closed() == old(self).closed(),
    {
        self.systems.push(system);
    }

    /// How many systems the world has.
    pub fn system_count(&self) -> (count: usize)
        ensures
            count == self.systems().len(),
    {
        self.systems.len()
    }

    /// An accessor to what the world holds now.
    pub fn accessor(&self) -> (accessor: Accessor<'_>)
        ensures
            accessor@ == self@,
    {
        Accessor::new(&self.manager)
    }

    /// Runs one frame: every system does its work once, in the order in which
    /// the systems were added, each with an accessor to this world. What the
    /// world holds does not change, and from now on no kind can be registered.
    pub fn update(&mut self)
        requires
            old(self).wf(),
        ensures
            final(self).wf(),
            final(self)@ == old(self)@,
            final(self).closed(),
            final(self).systems().len() == old(self).systems().len(),
            forall|i: int|
                0 <= i < old(self).systems().len() ==> S::updated(
                    #[trigger] old(self).systems()[i],
                    old(self)@,
                    final(self).systems()[i],
                ),
    {
        self.closed = true;
        let count: usize = self.systems.len();
        let mut turn: usize = 0;
        while turn < count
            invariant
                turn <= count,
                count == self.systems@.len(),
                count == old(self).systems@.len(),
                self.manager == old(self).manager,
                self.live == old(self).live,
                self.closed,
                old(self).wf(),
                forall|i: int|
                    0 <= i < turn ==> S::updated(
                        #[trigger] old(self).systems@[i],
                        model_of(old(self).manager),
                        self.systems@[i],
                    ),
                forall|i: int| turn <= i < count ==> self.systems@[i] == old(self).systems@[i],
            decreases count - turn,
        {
            let accessor = Accessor::new(&self.manager);
            self.systems[turn].update(&accessor);
            turn = turn + 1;
        }
    }
}

} // verus!
