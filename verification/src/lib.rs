//! Frames of an audio file's tag as records that a host can read and edit.
//!
//! A tag is read and written by the `id3` crate. This library says what a
//! host sees of a tag, what each edit of a host asks of it, and what a batch
//! of edits does to it.

pub mod codec;
pub mod content;
pub mod error;
pub mod laws;
pub mod loader;
pub mod mapper;
pub mod merge;
pub mod record;
pub mod text;
