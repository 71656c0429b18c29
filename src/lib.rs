//! Line input in the manner of an interactive prompt: one line of text, with
//! its terminator taken off.
//!
//! The library holds what is decided about a line once it has been read: the
//! `\n` that ends it, and a `\r` just before that `\n`, are removed; every
//! other character is kept as it was.
pub mod line;

pub use line::trim_line_ending;
