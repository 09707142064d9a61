//! Core of a small notepad application: a linear undo/redo history over
//! full-text snapshots, and a folder browser that lists directory entries
//! and filters hidden files.
//!
//! All I/O and GUI wiring lives outside this crate; the library works on
//! plain values handed in by its caller.

pub mod browser;
pub mod history;
pub mod notepad_app;
