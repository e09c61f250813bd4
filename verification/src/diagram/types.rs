//! Identifiers of the items of a rendered diagram scene.
use vstd::prelude::*;

verus! {

/// Identifier for a widget within a diagram scene.
#[derive(Debug, Clone, Copy, PartialEq, Eq, Structural, Hash)]
pub struct WidgetId(pub u64);

/// Identifier for an edge (association line) within a diagram scene.
#[derive(Debug, Clone, Copy, PartialEq, Eq, Structural, Hash)]
pub struct EdgeId(pub u64);

} // verus!
