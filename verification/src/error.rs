use vstd::prelude::*;

verus! {

/// The ways a snapshot or restore operation can fail before, or at, the
/// persistence engine.
#[derive(Clone, Copy, Debug, PartialEq, Eq, Structural)]
pub enum SnapshotError {
    /// An unknown field, or a required field that is missing, duplicated, or
    /// carries a value of the wrong shape.
    SchemaError,
    /// Every field is recognized and well shaped, but the combination of
    /// values is semantically invalid.
    InvariantError,
    /// The operation is illegal while the microVM occupies its current
    /// lifecycle state.
    StateConflictError,
    /// An opaque failure surfaced by an external collaborator, propagated
    /// verbatim.
    EngineError,
}

} // verus!
