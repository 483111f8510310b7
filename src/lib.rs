//! A terminal task list: the task store, the keystroke state machine and the
//! frame renderer, as plain verified logic. Terminal and file I/O live in the
//! application around this library.

pub mod input;
pub mod laws;
pub mod render;
pub mod store;
pub mod text;

pub use input::{Key, Outcome};
pub use render::{list_entry, render, Line, Style};
pub use store::{needs_migration, App, Mode, Task};
pub use text::{pad_to, trim_text};
