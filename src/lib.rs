//! A small modal text editor: a line buffer with one cursor, character edits,
//! and a two-mode key dispatcher.

pub mod editor;
pub mod error;
pub mod input;
pub mod row;
pub mod textarea;

pub use crate::editor::{Action, Editor, EditorMode};
pub use crate::error::Error;
pub use crate::input::{Input, Key};
pub use crate::row::Row;
pub use crate::textarea::{TextArea, TextModel};
