//! Terminal rendering primitives: ANSI style codes and color conversions, and a
//! single-line text input with a slash-command dropdown.

pub mod text;
pub mod width_tables;
pub mod styles;
pub mod input;
pub mod prompt;
