//! A verified loader and step interpreter for spreadsheet-derived
//! visual-novel scenario scripts.
//!
//! The library parses two kinds of JSON documents (a chapter configuration
//! with named entry tables, and a book script with an ordered command list)
//! and drives the resulting node sequence forward one logical step at a
//! time, emitting abstract presentation effects that a host realizes.

pub mod chars;
pub mod cmds;
pub mod doc;
pub mod effects;
pub mod entries;
pub mod interp;
pub mod json;
pub mod num;
pub mod table;
pub mod text;
pub mod tween;
pub mod utage4;
