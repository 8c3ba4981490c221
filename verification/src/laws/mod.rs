//! What the operations are for, stated of their inputs and results.
//!
//! The laws here name characters, bytes, limits and offsets outright. Each relates what goes in to
//! what comes out for every input, or two results to each other.

pub mod addresses;
pub mod cleanup;
pub mod clipboards;
pub mod decisions;
pub mod encodings;
pub mod images;
pub mod messages;
pub mod names;
pub mod receiving;
pub mod relay;
pub mod sending;
pub mod texts;
pub mod windows_clipboard;
