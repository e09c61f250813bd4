//! The automation client's side of the session: its cursor, the snapshot it
//! inspects, and selecting and clicking through the cursor.
use crate::click_decide::{first_enabled, unavailable_text};
use crate::click_perform::{click_done, ClickOutcome};
use crate::clicks::{qa_error_text, target_ready, unavailable, QaError, QaErrorView};
use crate::diagram::geometry::Point;
use crate::diagram::normalized_zoom;
use crate::editor::tool_label;
use crate::id::{DiagramId, UmlId};
use crate::session::{bumped, result_text, EditorSession, SessionView};
use crate::targets::{active_view, active_view_id, cursor_text, snapshot_targets, targets_view, UiTarget, UiTargetView};
use crate::text::owned;
use vstd::prelude::*;

verus! {

/// What an automation client sees of the editor.
#[derive(Debug, Clone)]
pub struct UiSnapshot {
    /// Whether the user interface answers requests.
    pub ready: bool,
    /// The number of frames drawn so far.
    pub ui_frame: u64,
    /// The session's change counter.
    pub state_revision: u64,
    /// The change counter of the last frame drawn.
    pub rendered_revision: u64,
    /// The label of the current tool.
    pub active_tool: String,
    /// The active diagram, if any.
    pub active_diagram: Option<DiagramId>,
    /// The selected element, if any.
    pub selected_element: Option<UmlId>,
    /// The client's current target, if any.
    pub selected_qa_target: Option<String>,
    /// The zoom of the active diagram (bit pattern, bounded to 10–500%).
    pub zoom_percent: Option<u64>,
    /// The pan of the active diagram, in screen pixels (bit patterns).
    pub pan: Option<(u64, u64)>,
    /// The status line.
    pub status: String,
    /// Every target the editor offers.
    pub targets: Vec<UiTarget>,
}

/// The mathematical value of a `UiSnapshot`.
pub struct UiSnapshotView {
    pub ready: bool,
    pub ui_frame: u64,
    pub state_revision: u64,
    pub rendered_revision: u64,
    pub active_tool: Seq<char>,
    pub active_diagram: Option<DiagramId>,
    pub selected_element: Option<UmlId>,
    pub selected_qa_target: Option<Seq<char>>,
    pub zoom_percent: Option<u64>,
    pub pan: Option<(u64, u64)>,
    pub status: Seq<char>,
    pub targets: Seq<UiTargetView>,
}

impl View for UiSnapshot {
    type V = UiSnapshotView;

    open spec fn view(&self) -> UiSnapshotView {
        UiSnapshotView {
            ready: self.ready,
            ui_frame: self.ui_frame,
            state_revision: self.state_revision,
            rendered_revision: self.rendered_revision,
            active_tool: self.active_tool@,
            active_diagram: self.active_diagram,
            selected_element: self.selected_element,
            selected_qa_target: crate::text::opt_text(self.selected_qa_target),
            zoom_percent: self.zoom_percent,
            pan: self.pan,
            status: self.status@,
            targets: targets_view(self.targets@),
        }
    }
}

/// The snapshot of a session: its counters, tool, active diagram (with its
/// bounded zoom and the given pan), selection, cursor, status line and every
/// target, selected by the cursor. The frame counters and the pan come from
/// the user interface.
pub open spec fn snapshot_of(
    s: SessionView,
    ids: Seq<UmlId>,
    ui_frame: u64,
    rendered_revision: u64,
    pan: (u64, u64),
) -> UiSnapshotView {
    UiSnapshotView {
        ready: true,
        ui_frame,
        state_revision: s.revision,
        rendered_revision,
        active_tool: tool_label(s.tool),
        active_diagram: active_view_id(s),
        selected_element: s.selected,
        selected_qa_target: s.cursor,
        zoom_percent: match active_view(s) {
            Some(d) => Some(normalized_zoom(d.zoom_percent)),
            None => None,
        },
        pan: if active_view(s) is Some {
            Some(pan)
        } else {
            None
        },
        status: s.status,
        targets: snapshot_targets(s, ids, s.cursor),
    }
}

/// Selecting a target: one that is offered and enabled becomes the cursor
/// and the change is counted; any other is refused with nothing changed.
pub open spec fn target_selected(
    s0: SessionView,
    ids: Seq<UmlId>,
    id: Seq<char>,
    s1: SessionView,
    r: Result<(), Seq<char>>,
) -> bool {
    if target_ready(s0, ids, id) {
        r is Ok && s1 == (SessionView { cursor: Some(id), revision: bumped(s0.revision), ..s0 })
    } else {
        r == Err::<(), Seq<char>>(unavailable(id)) && s1 == s0
    }
}

impl EditorSession {
    /// What an automation client sees now; the frame counters and the pan
    /// of the active diagram (bit patterns) come from the user interface.
    pub fn qa_snapshot(&self, ui_frame: u64, rendered_revision: u64, pan: (u64, u64)) -> (r: UiSnapshot)
        requires
            self.wf(),
        ensures
            r@ == snapshot_of(self@, self.element_order(), ui_frame, rendered_revision, pan),
    {
        let cursor = self.qa_cursor();
        let targets = self.qa_targets(cursor);
        let (active_diagram, zoom, p) = match self.active_view_diagram() {
            Some(d) => (Some(d.id), Some(d.zoom_percent()), Some(pan)),
            None => (None, None, None),
        };
        let selected_qa_target = match cursor {
            Some(t) => Some(owned(t)),
            None => None,
        };
        UiSnapshot {
            ready: true,
            ui_frame,
            state_revision: self.state_revision(),
            rendered_revision,
            active_tool: owned(self.current_tool().label()),
            active_diagram,
            selected_element: self.selected_element_id(),
            selected_qa_target,
            zoom_percent: zoom,
            pan: p,
            status: owned(self.status_message()),
            targets,
        }
    }

    /// Answer a client that waits until the user interface has drawn the
    /// revision it asked for: the snapshot once the drawn revision has
    /// reached it, else the request timed out.
    pub fn qa_sync(&self, ui_frame: u64, rendered_revision: u64, after_revision: u64, pan: (u64, u64)) -> (r: Result<
        UiSnapshot,
        String,
    >)
        requires
            self.wf(),
        ensures
            rendered_revision < after_revision ==> r is Err && r->Err_0@ == qa_error_text(QaErrorView::Timeout),
            rendered_revision >= after_revision ==> r is Ok && r->Ok_0@ == snapshot_of(
                self@,
                self.element_order(),
                ui_frame,
                rendered_revision,
                pan,
            ),
    {
        if rendered_revision < after_revision {
            return Err(QaError::Timeout.message());
        }
        Ok(self.qa_snapshot(ui_frame, rendered_revision, pan))
    }

    /// Select a target for the automation client: it must be offered now and
    /// enabled; it becomes the cursor.
    pub fn qa_select(&mut self, id: &str) -> (r: Result<(), String>)
        requires
            old(self).wf(),
        ensures
            final(self).wf(),
            target_selected(old(self)@, old(self).element_order(), id@, final(self)@, result_text(r)),
    {
        let ts = self.qa_targets(Some(id));
        assert(cursor_text(Some(id)) == Some(id@));
        if !first_enabled(&ts, id) {
            return Err(unavailable_text(id));
        }
        self.set_qa_cursor(id);
        self.bump_state();
        Ok(())
    }

    /// Click the target under the cursor (see `click_target`); without a
    /// cursor the click is refused.
    pub fn qa_click(&mut self, position: Option<Point>) -> (r: Result<ClickOutcome, String>)
        requires
            old(self).wf(),
            old(self)@.model.diagrams.len() < usize::MAX,
            old(self)@.model.elements.len() < usize::MAX,
        ensures
            final(self).wf(),
            match old(self)@.cursor {
                None => r is Err && r->Err_0@ == unavailable("no selected QA target"@) && final(self)@ == old(
                    self,
                )@,
                Some(id) => click_done(old(self)@, old(self).element_order(), id, position, final(self)@, r),
            },
    {
        let id = match self.qa_cursor() {
            Some(t) => owned(t),
            None => return Err(unavailable_text("no selected QA target")),
        };
        self.click_target(id.as_str(), position)
    }
}

} // verus!
