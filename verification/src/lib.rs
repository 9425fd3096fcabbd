//! Line-by-line projection of a text buffer to coloured runs.
//!
//! The buffer is cut into lines that keep their terminators, each line is
//! handed to the syntect tokenizer, and what comes back is turned into runs of
//! text with one foreground colour each. Whatever the tokenizer answers, the
//! runs of a line spell exactly that line, so the runs of all lines spell the
//! buffer.

pub mod editor;
pub mod gutter;
pub mod laws;
pub mod lines;
pub mod projector;
pub mod runs;
pub mod style;
pub mod tokenizer;
pub mod viewer;
