//! A modal, line-oriented text-editing core: a buffer of lines with a cursor,
//! driven by a two-mode command language.

pub mod buffer;
pub mod command;
pub mod editor;
pub mod event;
pub mod laws;
pub mod layout;
pub mod mode;
pub mod text;

pub use buffer::{Buffer, FileWrite, SaveError};
pub use command::Command;
pub use editor::Editor;
pub use event::{InputEvent, Key};
pub use layout::{Area, Layout};
pub use mode::Mode;
