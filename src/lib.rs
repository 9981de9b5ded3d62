//! Renames audio files after the title and track number found in their tags.
//!
//! The library holds the naming rules, the choice of tag, the per-file rename
//! decision and the run's tally; the program around it walks the directory
//! tree, reads the files and performs the renames.

mod text;
pub mod sanitize;
pub mod naming;
pub mod error;
pub mod tags;
pub mod extension;
pub mod process;
