//! A two-stage lookup service for rulebook page references.
//!
//! An offline compiler turns per-language source records (item, books, pages)
//! into an immutable association table keyed by the normalized item name.
//! A command interpreter parses one line of user text into a typed command,
//! and a response builder drives the lookup, listing, or help path to a
//! single localized text block.  Transport concerns (message delivery,
//! output-markup escaping) live outside this crate.

pub mod commands;
pub mod compiler;
pub mod directory;
pub mod langs_strs;
pub mod laws;
pub mod response;
pub mod table;
pub mod text;
