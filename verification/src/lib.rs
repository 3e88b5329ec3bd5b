//! An editable in-memory text buffer: single-character insertion and
//! deletion at a cursor, and two-dimensional cursor navigation by character
//! and by line, intended as the model layer beneath a rendered text view.

pub mod buffer;
pub mod laws;
pub mod model;
