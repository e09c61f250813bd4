//! Umbrello: a UML modeling library.
//!
//! The model (elements, repository, diagrams) and its undoable commands,
//! together with the editing rules of the diagram editor.
#![allow(unused_imports)]

pub mod id;
pub mod types;
pub mod diagram;
pub mod text;
pub mod elements;
pub mod keyed;
pub mod repository;
pub mod undo;
pub mod editor;
pub mod naming;
pub mod drafts;
pub mod draft_edits;
pub mod session;
pub mod session_laws;
pub mod targets;
pub mod target_list;
pub mod clicks;
pub mod click_decide;
pub mod click_perform;
pub mod automation;
pub mod text_entry;
pub mod keys;
pub mod compartments;
pub mod drag_target;
pub mod codegen;
pub mod codegen_cpp;
pub mod codegen_java;
pub mod codegen_python;
pub mod codegen_rust;
pub mod common;
pub mod event;
pub mod render;
pub mod xmi;
pub mod export;
pub mod import;
