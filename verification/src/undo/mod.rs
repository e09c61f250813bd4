//! Undo/redo command system.
//!
//! Every mutation of a `UmlModel` that the user performs is a command with a
//! forward operation (`execute`) and its reverse (`undo`). `History` keeps
//! the executed commands on a bounded undo stack and the undone ones on a
//! redo stack.
pub mod commands;
pub mod history;
pub mod round_trips;

use crate::id::{uuid_text_spec, UmlId};
use crate::repository::{model_error_text, ModelError, UmlModel, UmlModelView};
use crate::text::owned;
use vstd::prelude::*;

verus! {

/// Errors that can occur during command execution.
#[derive(Debug)]
pub enum CommandError {
    /// An element was not found.
    ElementNotFound(UmlId),
    /// The operation is invalid in the current model state.
    InvalidOperation(String),
    /// A model-level error occurred.
    Model(ModelError),
}

/// The mathematical value of a `CommandError`.
pub enum CommandErrorView {
    /// An element was not found.
    ElementNotFound(UmlId),
    /// The operation is invalid, with its message.
    InvalidOperation(Seq<char>),
    /// A model-level error.
    Model(ModelError),
}

impl View for CommandError {
    type V = CommandErrorView;

    open spec fn view(&self) -> CommandErrorView {
        match self {
            CommandError::ElementNotFound(id) => CommandErrorView::ElementNotFound(*id),
            CommandError::InvalidOperation(m) => CommandErrorView::InvalidOperation(m@),
            CommandError::Model(e) => CommandErrorView::Model(*e),
        }
    }
}

/// The value of a command's outcome.
pub open spec fn outcome(r: Result<(), CommandError>) -> Result<(), CommandErrorView> {
    match r {
        Ok(()) => Ok(()),
        Err(e) => Err(e@),
    }
}

/// A successful outcome.
pub open spec fn succeeded() -> Result<(), CommandErrorView> {
    Ok(())
}

/// The outcome "invalid operation" with the given message.
pub open spec fn invalid(msg: Seq<char>) -> Result<(), CommandErrorView> {
    Err(CommandErrorView::InvalidOperation(msg))
}

/// The outcome "element not found".
pub open spec fn not_found(id: UmlId) -> Result<(), CommandErrorView> {
    Err(CommandErrorView::ElementNotFound(id))
}

/// The text of a command error.
pub open spec fn command_error_text(e: CommandErrorView) -> Seq<char> {
    match e {
        CommandErrorView::ElementNotFound(id) => "element not found: "@ + uuid_text_spec(id.value),
        CommandErrorView::InvalidOperation(m) => "invalid operation: "@ + m,
        CommandErrorView::Model(me) => "model error: "@ + model_error_text(me),
    }
}

impl CommandError {
    /// The error's text.
    pub fn message(&self) -> (s: String)
        ensures
            s@ == command_error_text(self@),
    {
        match self {
            CommandError::ElementNotFound(id) => {
                let mut s = owned("element not found: ");
                s.append(id.to_text().as_str());
                s
            },
            CommandError::InvalidOperation(m) => {
                let mut s = owned("invalid operation: ");
                s.append(m.as_str());
                s
            },
            CommandError::Model(e) => {
                let mut s = owned("model error: ");
                s.append(e.message().as_str());
                s
            },
        }
    }
}

/// An "invalid operation" error with the given message.
pub fn invalid_operation(msg: &str) -> (e: CommandError)
    ensures
        e@ == CommandErrorView::InvalidOperation(msg@),
{
    CommandError::InvalidOperation(owned(msg))
}

/// A reversible operation on a `UmlModel`.
///
/// `executes` and `undoes` state exactly what one call does: how the command
/// and the model change, and which outcome is returned.
pub trait Command: Sized {
    /// The command's own consistency, kept by every operation.
    spec fn inv(self) -> bool;

    /// What a call of `execute` does: from command `self` and model `before`
    /// to command `after`, model `after_model` and the outcome.
    spec fn executes(
        self,
        after: Self,
        before: UmlModelView,
        after_model: UmlModelView,
        r: Result<(), CommandErrorView>,
    ) -> bool;

    /// What a call of `undo` does.
    spec fn undoes(
        self,
        after: Self,
        before: UmlModelView,
        after_model: UmlModelView,
        r: Result<(), CommandErrorView>,
    ) -> bool;

    /// The human-readable description.
    spec fn description_text(self) -> Seq<char>;

    /// Execute the command.
    fn execute(&mut self, model: &mut UmlModel) -> (r: Result<(), CommandError>)
        requires
            old(model).wf(),
            old(self).inv(),
        ensures
            final(model).wf(),
            final(self).inv(),
            old(self).executes(*final(self), old(model)@, final(model)@, outcome(r)),
            final(self).description_text() == old(self).description_text(),
    ;

    /// Undo the command: reverse the effect of `execute`.
    fn undo(&mut self, model: &mut UmlModel) -> (r: Result<(), CommandError>)
        requires
            old(model).wf(),
            old(self).inv(),
        ensures
            final(model).wf(),
            final(self).inv(),
            old(self).undoes(*final(self), old(model)@, final(model)@, outcome(r)),
            final(self).description_text() == old(self).description_text(),
    ;

    /// Human-readable description of this command.
    fn description(&self) -> (s: &str)
        ensures
            s@ == self.description_text(),
    ;
}

} // verus!
