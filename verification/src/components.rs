use vstd::prelude::*;

verus! {

/// The kinds of component a world can hold.
#[derive(Clone, Copy, Debug, PartialEq, Eq, Hash, Structural)]
pub enum ComponentType {
    Position,
    Scale,
    Rotation,
    GLTFModel,
}

/// Where an entity is. Each coordinate is a 64-bit word that the world stores
/// and hands back unchanged; a host that works in floating point keeps the
/// bit pattern of each number here.
#[derive(Clone, Copy, Debug, PartialEq, Eq, Structural)]
pub struct Position {
    pub x: u64,
    pub y: u64,
    pub z: u64,
}

/// How much an entity is stretched along each axis.
#[derive(Clone, Copy, Debug, PartialEq, Eq, Structural)]
pub struct Scale {
    pub x: u64,
    pub y: u64,
    pub z: u64,
}

/// How far an entity is turned about each axis.
#[derive(Clone, Copy, Debug, PartialEq, Eq, Structural)]
pub struct Rotation {
    pub x: u64,
    pub y: u64,
    pub z: u64,
}

/// A reference to a renderable model: the handle under which the host keeps it.
#[derive(Clone, Copy, Debug, PartialEq, Eq, Structural)]
pub struct GLTFModel {
    pub handle: u64,
}

/// A component together with its kind: the only shape in which component data
/// leaves or enters a world.
#[derive(Clone, Copy, Debug, PartialEq, Eq, Structural)]
pub enum Component {
    Position(Position),
    Scale(Scale),
    Rotation(Rotation),
    GLTFModel(GLTFModel),
}

impl Component {
    /// The kind of this component.
    pub open spec fn tag(self) -> ComponentType {
        match self {
            Component::Position(_) => ComponentType::Position,
            Component::Scale(_) => ComponentType::Scale,
            Component::Rotation(_) => ComponentType::Rotation,
            Component::GLTFModel(_) => ComponentType::GLTFModel,
        }
    }

    /// The kind of this component.
    pub fn component_type(&self) -> (t: ComponentType)
        ensures
            t == self.tag(),
    {
        match self {
            Component::Position(_) => ComponentType::Position,
            Component::Scale(_) => ComponentType::Scale,
            Component::Rotation(_) => ComponentType::Rotation,
            Component::GLTFModel(_) => ComponentType::GLTFModel,
        }
    }
}

impl From<Position> for Component {
    fn from(value: Position) -> (c: Component) {
        Component::Position(value)
    }
}

impl vstd::std_specs::convert::FromSpecImpl<Position> for Component {
    open spec fn obeys_from_spec() -> bool {
        true
    }

    open spec fn from_spec(value: Position) -> Component {
        Component::Position(value)
    }
}

impl From<Scale> for Component {
    fn from(value: Scale) -> (c: Component) {
        Component::Scale(value)
    }
}

impl vstd::std_specs::convert::FromSpecImpl<Scale> for Component {
    open spec fn obeys_from_spec() -> bool {
        true
    }

    open spec fn from_spec(value: Scale) -> Component {
        Component::Scale(value)
    }
}

impl From<Rotation> for Component {
    fn from(value: Rotation) -> (c: Component) {
        Component::Rotation(value)
    }
}

impl vstd::std_specs::convert::FromSpecImpl<Rotation> for Component {
    open spec fn obeys_from_spec() -> bool {
        true
    }

    open spec fn from_spec(value: Rotation) -> Component {
        Component::Rotation(value)
    }
}

impl From<GLTFModel> for Component {
    fn from(value: GLTFModel) -> (c: Component) {
        Component::GLTFModel(value)
    }
}

impl vstd::std_specs::convert::FromSpecImpl<GLTFModel> for Component {
    open spec fn obeys_from_spec() -> bool {
        true
    }

    open spec fn from_spec(value: GLTFModel) -> Component {
        Component::GLTFModel(value)
    }
}

} // verus!
