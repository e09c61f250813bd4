//! Diagram rendering abstraction.
use vstd::prelude::*;

verus! {

/// Rendering canvas abstraction.
#[derive(Debug)]
pub struct Canvas;

/// Renderer of one diagram widget.
pub trait WidgetRenderer {
    /// Draw the widget; by default nothing is drawn.
    fn draw(&self, canvas: &mut Canvas) {
    }
}

} // verus!
