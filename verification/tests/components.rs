use aw_world::{
    Accessor, AwWorld, Component, ComponentType, GLTFModel, Position, Rotation, Scale, System,
    WorldError,
};

struct Idle;

impl System for Idle {
    fn update(&mut self, _get_component: &Accessor<'_>) {}
}

fn position(x: f64, y: f64, z: f64) -> Position {
    Position { x: x.to_bits(), y: y.to_bits(), z: z.to_bits() }
}

#[test]
fn a_component_knows_its_kind() {
    assert_eq!(Component::Position(position(0.0, 0.0, 0.0)).component_type(), ComponentType::Position);
    assert_eq!(Component::Scale(Scale { x: 1, y: 1, z: 1 }).component_type(), ComponentType::Scale);
    assert_eq!(
        Component::Rotation(Rotation { x: 1, y: 1, z: 1 }).component_type(),
        ComponentType::Rotation
    );
    assert_eq!(
        Component::GLTFModel(GLTFModel { handle: 9 }).component_type(),
        ComponentType::GLTFModel
    );
}

#[test]
fn payloads_convert_into_components() {
    let p = position(1.0, 2.0, 3.0);
    let s = Scale { x: 4, y: 5, z: 6 };
    let r = Rotation { x: 7, y: 8, z: 9 };
    let m = GLTFModel { handle: 10 };
    assert_eq!(Component::from(p), Component::Position(p));
    assert_eq!(Component::from(s), Component::Scale(s));
    assert_eq!(Component::from(r), Component::Rotation(r));
    assert_eq!(Component::from(m), Component::GLTFModel(m));
    let through_into: Component = p.into();
    assert_eq!(through_into, Component::Position(p));
}

#[test]
fn a_new_world_has_no_tables() {
    let world: AwWorld<Idle> = AwWorld::new();
    assert!(!world.is_registered(ComponentType::Position));
    assert!(!world.is_registered(ComponentType::Scale));
    assert!(!world.is_registered(ComponentType::Rotation));
    assert!(!world.is_registered(ComponentType::GLTFModel));
    assert!(!world.is_closed());
    assert_eq!(world.system_count(), 0);
}

#[test]
fn registering_one_kind_registers_only_it() {
    let mut world: AwWorld<Idle> = AwWorld::new();
    world.register_component_type(ComponentType::Scale);
    assert!(world.is_registered(ComponentType::Scale));
    assert!(!world.is_registered(ComponentType::Position));
    assert!(!world.is_registered(ComponentType::Rotation));
    assert!(!world.is_registered(ComponentType::GLTFModel));
    assert!(world.accessor().is_registered(ComponentType::Scale));
    assert!(!world.accessor().is_registered(ComponentType::Rotation));
}

#[test]
fn the_included_components_are_all_four() {
    let world: AwWorld<Idle> = AwWorld::with_included_components();
    assert!(world.is_registered(ComponentType::Position));
    assert!(world.is_registered(ComponentType::Scale));
    assert!(world.is_registered(ComponentType::Rotation));
    assert!(world.is_registered(ComponentType::GLTFModel));
    assert!(!world.is_alive(0));
}

#[test]
fn registering_again_keeps_what_the_table_holds() {
    let mut world: AwWorld<Idle> = AwWorld::new();
    world.register_component_type(ComponentType::Position);
    let e = world.create_entity();
    let here = Component::Position(position(1.0, 2.0, 3.0));
    assert_eq!(world.add_component_to_entity(e, ComponentType::Position, here), Ok(()));
    world.register_component_type(ComponentType::Position);
    assert!(world.is_registered(ComponentType::Position));
    assert_eq!(world.accessor().get_component(ComponentType::Position, e), Some(here));
}

#[test]
fn a_query_returns_what_was_attached() {
    let mut world: AwWorld<Idle> = AwWorld::with_included_components();
    let e = world.create_entity();
    let p = Component::Position(position(1.5, -2.0, 3.25));
    let s = Component::Scale(Scale { x: 2, y: 2, z: 2 });
    let r = Component::Rotation(Rotation { x: 0, y: 90, z: 180 });
    let m = Component::GLTFModel(GLTFModel { handle: 42 });
    assert_eq!(world.add_component_to_entity(e, ComponentType::Position, p), Ok(()));
    assert_eq!(world.add_component_to_entity(e, ComponentType::Scale, s), Ok(()));
    assert_eq!(world.add_component_to_entity(e, ComponentType::Rotation, r), Ok(()));
    assert_eq!(world.add_component_to_entity(e, ComponentType::GLTFModel, m), Ok(()));
    let accessor = world.accessor();
    assert_eq!(accessor.get_component(ComponentType::Position, e), Some(p));
    assert_eq!(accessor.get_component(ComponentType::Scale, e), Some(s));
    assert_eq!(accessor.get_component(ComponentType::Rotation, e), Some(r));
    assert_eq!(accessor.get_component(ComponentType::GLTFModel, e), Some(m));
}

#[test]
fn the_numbers_of_a_position_come_back_bit_for_bit() {
    let mut world: AwWorld<Idle> = AwWorld::with_included_components();
    let e = world.create_entity();
    let p = Component::Position(position(1.0, 2.0, 3.0));
    assert_eq!(world.add_component_to_entity(e, ComponentType::Position, p), Ok(()));
    match world.accessor().get_component(ComponentType::Position, e) {
        Some(Component::Position(found)) => {
            assert_eq!(f64::from_bits(found.x), 1.0);
            assert_eq!(f64::from_bits(found.y), 2.0);
            assert_eq!(f64::from_bits(found.z), 3.0);
        }
        other => panic!("expected a position, found {:?}", other),
    }
}

#[test]
fn a_component_sits_on_its_entity_only() {
    let mut world: AwWorld<Idle> = AwWorld::with_included_components();
    let a = world.create_entity();
    let b = world.create_entity();
    let p = Component::Position(position(1.0, 2.0, 3.0));
    assert_eq!(world.add_component_to_entity(a, ComponentType::Position, p), Ok(()));
    let accessor = world.accessor();
    assert_eq!(accessor.get_component(ComponentType::Position, a), Some(p));
    assert_eq!(accessor.get_component(ComponentType::Position, b), None);
    assert_eq!(accessor.get_component(ComponentType::Scale, a), None);
}

#[test]
fn attaching_again_replaces_the_component() {
    let mut world: AwWorld<Idle> = AwWorld::with_included_components();
    let e = world.create_entity();
    let first = Component::Position(position(1.0, 2.0, 3.0));
    let second = Component::Position(position(7.0, 8.0, 9.0));
    assert_eq!(world.add_component_to_entity(e, ComponentType::Position, first), Ok(()));
    assert_eq!(world.add_component_to_entity(e, ComponentType::Position, second), Ok(()));
    assert_eq!(world.accessor().get_component(ComponentType::Position, e), Some(second));
}

#[test]
fn replacing_one_component_leaves_the_others() {
    let mut world: AwWorld<Idle> = AwWorld::with_included_components();
    let a = world.create_entity();
    let b = world.create_entity();
    let on_a = Component::Scale(Scale { x: 1, y: 1, z: 1 });
    let on_b = Component::Scale(Scale { x: 2, y: 2, z: 2 });
    let model = Component::GLTFModel(GLTFModel { handle: 3 });
    assert_eq!(world.add_component_to_entity(a, ComponentType::Scale, on_a), Ok(()));
    assert_eq!(world.add_component_to_entity(b, ComponentType::Scale, on_b), Ok(()));
    assert_eq!(world.add_component_to_entity(a, ComponentType::GLTFModel, model), Ok(()));
    let replaced = Component::Scale(Scale { x: 5, y: 6, z: 7 });
    assert_eq!(world.add_component_to_entity(a, ComponentType::Scale, replaced), Ok(()));
    let accessor = world.accessor();
    assert_eq!(accessor.get_component(ComponentType::Scale, a), Some(replaced));
    assert_eq!(accessor.get_component(ComponentType::Scale, b), Some(on_b));
    assert_eq!(accessor.get_component(ComponentType::GLTFModel, a), Some(model));
}

#[test]
fn a_payload_of_another_kind_is_malformed() {
    let mut world: AwWorld<Idle> = AwWorld::with_included_components();
    let e = world.create_entity();
    let s = Component::Scale(Scale { x: 1, y: 2, z: 3 });
    assert_eq!(
        world.add_component_to_entity(e, ComponentType::Position, s),
        Err(WorldError::MalformedComponentPayload)
    );
    let accessor = world.accessor();
    assert_eq!(accessor.get_component(ComponentType::Position, e), None);
    assert_eq!(accessor.get_component(ComponentType::Scale, e), None);
}

#[test]
fn a_refused_attach_leaves_the_old_component() {
    let mut world: AwWorld<Idle> = AwWorld::with_included_components();
    let e = world.create_entity();
    let p = Component::Position(position(1.0, 2.0, 3.0));
    assert_eq!(world.add_component_to_entity(e, ComponentType::Position, p), Ok(()));
    let r = Component::Rotation(Rotation { x: 1, y: 2, z: 3 });
    assert_eq!(
        world.add_component_to_entity(e, ComponentType::Position, r),
        Err(WorldError::MalformedComponentPayload)
    );
    assert_eq!(world.accessor().get_component(ComponentType::Position, e), Some(p));
    assert_eq!(world.accessor().get_component(ComponentType::Rotation, e), None);
}

#[test]
fn attaching_a_kind_without_a_table_is_refused() {
    let mut world: AwWorld<Idle> = AwWorld::new();
    world.register_component_type(ComponentType::Position);
    let e = world.create_entity();
    let s = Component::Scale(Scale { x: 1, y: 2, z: 3 });
    assert_eq!(
        world.add_component_to_entity(e, ComponentType::Scale, s),
        Err(WorldError::UnregisteredComponentType)
    );
    world.register_component_type(ComponentType::Scale);
    assert_eq!(world.accessor().get_component(ComponentType::Scale, e), None);
}

#[test]
fn attaching_to_a_dead_entity_is_refused() {
    let mut world: AwWorld<Idle> = AwWorld::with_included_components();
    let p = Component::Position(position(1.0, 2.0, 3.0));
    assert_eq!(
        world.add_component_to_entity(0, ComponentType::Position, p),
        Err(WorldError::InvalidEntity)
    );
    let e = world.create_entity();
    assert_eq!(world.remove_entity(e), Ok(()));
    assert_eq!(
        world.add_component_to_entity(e, ComponentType::Position, p),
        Err(WorldError::InvalidEntity)
    );
    let again = world.create_entity();
    assert_eq!(again, e);
    assert_eq!(world.accessor().get_component(ComponentType::Position, again), None);
}

#[test]
fn the_payload_is_looked_at_before_the_table_and_the_table_before_the_entity() {
    let mut world: AwWorld<Idle> = AwWorld::new();
    let s = Component::Scale(Scale { x: 1, y: 2, z: 3 });
    assert_eq!(
        world.add_component_to_entity(7, ComponentType::Position, s),
        Err(WorldError::MalformedComponentPayload)
    );
    assert_eq!(
        world.add_component_to_entity(7, ComponentType::Scale, s),
        Err(WorldError::UnregisteredComponentType)
    );
    world.register_component_type(ComponentType::Scale);
    assert_eq!(
        world.add_component_to_entity(7, ComponentType::Scale, s),
        Err(WorldError::InvalidEntity)
    );
}

#[test]
fn a_missing_table_is_told_from_a_missing_component() {
    let mut world: AwWorld<Idle> = AwWorld::new();
    world.register_component_type(ComponentType::Position);
    let e = world.create_entity();
    let accessor = world.accessor();
    assert_eq!(accessor.try_get_component(ComponentType::Position, e), Ok(None));
    assert_eq!(
        accessor.try_get_component(ComponentType::Scale, e),
        Err(WorldError::UnregisteredComponentType)
    );
}

#[test]
fn a_checked_query_finds_what_a_plain_query_finds() {
    let mut world: AwWorld<Idle> = AwWorld::with_included_components();
    let e = world.create_entity();
    let m = Component::GLTFModel(GLTFModel { handle: 77 });
    assert_eq!(world.add_component_to_entity(e, ComponentType::GLTFModel, m), Ok(()));
    let accessor = world.accessor();
    assert_eq!(accessor.try_get_component(ComponentType::GLTFModel, e), Ok(Some(m)));
    assert_eq!(accessor.try_get_component(ComponentType::GLTFModel, e + 1), Ok(None));
}
