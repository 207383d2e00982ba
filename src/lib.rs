//! Initializes empty font sources: a single `.glif` glyph file, or a `.ufo`
//! font bundle holding a fixed set of property lists.
use vstd::prelude::*;

pub mod error;
pub mod glif;
pub mod templates;
pub mod text;
pub mod ufo;
