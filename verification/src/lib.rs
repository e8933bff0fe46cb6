//! Verified core of a KaTeX-compatible math typesetting toolkit: font
//! identifiers, symbol and delimiter classification, benchmark statistics,
//! glyph-font selection and PNG encoding of rendered pixmaps.

pub mod text;
pub mod font_id;
pub mod stats;
pub mod bench;
pub mod symbols;
pub mod font_commands;
pub mod splits;
pub mod glyphs;
pub mod png_out;
pub mod fontfiles;
