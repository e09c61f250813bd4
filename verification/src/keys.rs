//! The editor's answers to the keyboard: the single keys that choose a tool,
//! Escape, which cancels the innermost thing in progress, and the undo and
//! redo shortcuts.
use crate::editor::ToolMode;
use crate::session::{cleared_selection, result_text, session_redo_done, session_undo_done, EditorSession, SessionView};
use vstd::prelude::*;

verus! {

/// The tool that a single key (without modifiers) chooses. Aggregation and
/// composition have no key: `c` and `g` are taken by class and
/// generalization.
pub open spec fn tool_key(key: char) -> Option<ToolMode> {
    if key == 's' {
        Some(ToolMode::Select)
    } else if key == 'c' {
        Some(ToolMode::CreateClass)
    } else if key == 'i' {
        Some(ToolMode::CreateInterface)
    } else if key == 'e' {
        Some(ToolMode::CreateEnum)
    } else if key == 'd' {
        Some(ToolMode::CreateDatatype)
    } else if key == 'p' {
        Some(ToolMode::CreatePackage)
    } else if key == 'g' {
        Some(ToolMode::CreateGeneralization)
    } else if key == 'r' {
        Some(ToolMode::CreateRealization)
    } else if key == 'a' {
        Some(ToolMode::CreateAssociation)
    } else if key == 'n' {
        Some(ToolMode::CreateDependency)
    } else if key == 't' {
        Some(ToolMode::CreateActor)
    } else if key == 'u' {
        Some(ToolMode::CreateUseCase)
    } else {
        None
    }
}

/// The tool that a single key chooses (see `tool_key`).
pub fn tool_for_key(key: char) -> (r: Option<ToolMode>)
    ensures
        r == tool_key(key),
{
    if key == 's' {
        Some(ToolMode::Select)
    } else if key == 'c' {
        Some(ToolMode::CreateClass)
    } else if key == 'i' {
        Some(ToolMode::CreateInterface)
    } else if key == 'e' {
        Some(ToolMode::CreateEnum)
    } else if key == 'd' {
        Some(ToolMode::CreateDatatype)
    } else if key == 'p' {
        Some(ToolMode::CreatePackage)
    } else if key == 'g' {
        Some(ToolMode::CreateGeneralization)
    } else if key == 'r' {
        Some(ToolMode::CreateRealization)
    } else if key == 'a' {
        Some(ToolMode::CreateAssociation)
    } else if key == 'n' {
        Some(ToolMode::CreateDependency)
    } else if key == 't' {
        Some(ToolMode::CreateActor)
    } else if key == 'u' {
        Some(ToolMode::CreateUseCase)
    } else {
        None
    }
}

/// The session after Escape: a node drag in progress is cancelled; else the
/// selection is cleared; else an edge being drawn is cancelled; else the
/// selection tool comes back and the placement preview goes.
pub open spec fn escaped(s: SessionView) -> SessionView {
    if s.drag_node is Some {
        SessionView {
            drag_node: None,
            drag_start: None,
            drag_preview: None,
            status: "Node drag cancelled"@,
            ..s
        }
    } else if s.selected is Some {
        SessionView { status: "Selection cleared"@, ..cleared_selection(s) }
    } else if s.drag_source is Some {
        SessionView { drag_source: None, status: "Edge creation cancelled"@, ..s }
    } else {
        SessionView { tool: ToolMode::Select, preview: None, ..s }
    }
}

impl EditorSession {
    /// Answer Escape (see `escaped`).
    pub fn press_escape(&mut self)
        requires
            old(self).wf(),
        ensures
            final(self).wf(),
            final(self)@ == escaped(old(self)@),
    {
        if self.dragged_node().is_some() {
            let _ = self.take_node_drag();
            self.set_status("Node drag cancelled");
        } else if self.selected_element_id().is_some() {
            self.clear_selection();
            self.set_status("Selection cleared");
        } else if self.drag_source().is_some() {
            self.set_drag_source(None);
            self.set_status("Edge creation cancelled");
        } else {
            self.set_current_tool(ToolMode::Select);
            self.set_preview_position(None);
        }
    }

    /// The undo shortcut: undo the newest step and, when that succeeds, say
    /// so on the status line.
    pub fn undo_shortcut(&mut self) -> (r: Result<(), String>)
        requires
            old(self).wf(),
        ensures
            final(self).wf(),
            exists|mid: SessionView|
                {
                    &&& #[trigger] session_undo_done(old(self)@, mid, result_text(r))
                    &&& final(self)@ == if r is Ok {
                        SessionView { status: "Undo"@, ..mid }
                    } else {
                        mid
                    }
                },
    {
        let r = self.undo_action();
        let ghost mid = self@;
        if r.is_ok() {
            self.set_status("Undo");
        }
        r
    }

    /// The redo shortcut: redo the newest undone step and, when that
    /// succeeds, say so on the status line.
    pub fn redo_shortcut(&mut self) -> (r: Result<(), String>)
        requires
            old(self).wf(),
        ensures
            final(self).wf(),
            exists|mid: SessionView|
                {
                    &&& #[trigger] session_redo_done(old(self)@, mid, result_text(r))
                    &&& final(self)@ == if r is Ok {
                        SessionView { status: "Redo"@, ..mid }
                    } else {
                        mid
                    }
                },
    {
        let r = self.redo_action();
        let ghost mid = self@;
        if r.is_ok() {
            self.set_status("Redo");
        }
        r
    }
}

} // verus!
