//! Verified core of a terminal-resident modal text editor.
//!
//! The crate owns the editing engine: a never-empty line buffer with
//! grapheme-cluster-aware indexing, the cursor and viewport bookkeeping, and
//! the Normal/Insert modal state machine that turns input events into buffer
//! mutations.  A host UI is expected to deliver decoded input events and a
//! viewport size, and to render the state this crate exposes.

pub mod buffer;
pub mod editor;
pub mod graphemes;
pub mod text;
