//! Document and interaction logic of a 2D drafting application: entities,
//! layers, drawing tools, the undo/redo history and the selection.

pub mod display;
pub mod domain;
pub mod editing;
pub mod history_laws;
pub mod naming;
pub mod readback;
pub mod selection;
pub mod state;
pub mod tools;
