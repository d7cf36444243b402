//! A small modal text editor core: a line buffer, a viewport with a cursor
//! and vertical scrolling, a modal input state machine, and an incremental
//! renderer that emits terminal escape sequences.
//!
//! Everything here is pure computation over plain values; reading input,
//! writing to the terminal and touching the file system stay outside.

pub mod editor;
pub mod render;
pub mod screen;
pub mod strutil;
pub mod term;
pub mod text;
pub mod util;
