//! Text-line storage and modal editing core of a terminal screen editor.
//!
//! Lines keep their character count and display width up to date on every
//! change; an edit buffer split at the cursor serves insertion sessions; an
//! editor state machine turns single input bytes into cursor moves and edits.

pub mod width;
pub mod line;
pub mod edit_buffer;
pub mod document;
pub mod editor;
