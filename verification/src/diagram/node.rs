//! Visual node types for diagrams.
use crate::diagram::geometry::Rect;
use crate::id::UmlId;
use vstd::prelude::*;

verus! {

/// A visual node on a diagram: the geometric representation of a model element.
#[derive(Debug, Clone, Copy, PartialEq, Eq, Structural)]
pub struct ViewNode {
    /// The model element this node represents.
    pub model_element_id: UmlId,
    /// Position and size on the diagram canvas.
    pub bounds: Rect,
    /// Z-order for layering (higher = on top).
    pub z_order: i32,
    /// Whether this node is visible.
    pub visible: bool,
}

impl ViewNode {
    /// Create a new visible view node at z-order 0.
    pub fn new(model_element_id: UmlId, bounds: Rect) -> (n: Self)
        ensures
            n == (ViewNode { model_element_id, bounds, z_order: 0, visible: true }),
    {
        ViewNode { model_element_id, bounds, z_order: 0, visible: true }
    }
}

} // verus!
