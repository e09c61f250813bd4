# umbrello

The model and editing core of a UML modelling tool, written in Verus: every
operation of the library carries a contract, and Verus proves the code
against it.

## Layout

- `src/id.rs`, `src/types.rs`, `src/elements.rs`, `src/diagram/`: identifiers,
  the UML elements and their metadata, diagrams with their nodes and edges.
- `src/repository.rs`, `src/keyed.rs`: the model — elements by id, package
  membership, diagrams — and its well-formedness.
- `src/undo/`: the undoable commands, the history with its bounded undo and
  redo stacks, and the laws that undo reverses execute and that redo
  after undo gives the executed model again.
- `src/editor.rs`, `src/naming.rs`: the tool palette's rules (which tool
  authors which diagram kind), default names `<Base>_<n>`.
- `src/drafts.rs`: the property inspector's drafts of relationships and
  classifier features: how they are read from the model, checked and
  applied.
- `src/session.rs`, `src/session_laws.rs`: the editing session — model,
  history, open project, active diagram, tool, selection, inspector, drag
  state — and every editing action the editor offers, with the
  session-level laws.
- `src/draft_edits.rs`: editing a classifier draft feature by feature.
- `src/targets.rs`, `src/target_list.rs`, `src/clicks.rs`,
  `src/click_decide.rs`, `src/click_perform.rs`, `src/automation.rs`: the
  automation interface — the list of targets the editor offers, what a
  click on a target means and carrying it out, the automation cursor and
  the snapshot a client reads; `src/text_entry.rs`: setting the text of a
  target; `src/drag_target.rs`: dragging a target (panning, moving a node,
  drawing an edge).
- `src/keys.rs`: the keyboard — tool keys, Escape, the undo and redo
  shortcuts; `src/compartments.rs`: the text lines of a node's compartments.
- `src/codegen*`, `src/xmi.rs`, `src/export.rs`, `src/import.rs`,
  `src/render.rs`, `src/event.rs`, `src/common.rs`: code generators, writers
  and the shared error type.
- `app/main.rs`: the command-line entry point; `app/qa.rs`, `app/drag.rs`,
  `app/canvas.rs`, `app/viewport.rs`: the floating-point and protocol edges
  of the automation interface, dragging and the canvas.
- `tests/`: tests of the library on concrete values.
