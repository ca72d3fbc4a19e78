//! Turns the lines of a drawn directory tree into the entries they name.

pub mod glyphs;
pub mod laws;
pub mod line;
pub mod plan;
pub mod processor;
pub mod text;
