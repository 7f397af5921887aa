use vstd::prelude::*;

verus! {

/// Why a world refused an operation.
#[derive(Clone, Copy, Debug, PartialEq, Eq, Structural)]
pub enum WorldError {
    /// The entity id was never handed out, or has been removed since.
    InvalidEntity,
    /// No table has been registered for the component kind.
    UnregisteredComponentType,
    /// The payload is not of the kind it was announced as.
    MalformedComponentPayload,
}

} // verus!
