//! Eddy: the editing core of a small terminal text editor.
//!
//! The crate holds the text model (rows and buffers), the undo history,
//! the status-bar input line, cursor movement, colour selection, the
//! formatting used by the debug log and the key handling of the editor,
//! each with a contract checked by Verus.
use vstd::prelude::*;

pub mod position;
pub mod text;
pub mod row;
pub mod buffer;
pub mod history;
pub mod view;
pub mod status_input;
pub mod settings;
pub mod status_message;
pub mod document;
pub mod color_pairs;
pub mod logger;
pub mod text_editor;

verus! {

/// The name of the editor, shown in the title bar.
pub const TITLE: &'static str = "Eddy";

} // verus!
