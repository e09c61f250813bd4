//! Model change events.
use vstd::prelude::*;

verus! {

/// A change to the UML model: each variant is one kind of mutation.
#[derive(Debug, Clone, Copy, PartialEq, Eq, Structural)]
pub enum ModelEvent {
    /// An object was created.
    ObjectCreated,
    /// An object was removed.
    ObjectRemoved,
    /// An object was renamed.
    ObjectRenamed,
    /// A property of an object changed.
    PropertyChanged,
}

} // verus!
