//! Harmonic pitch colouring for musical scales.
//!
//! Colours for the twelve pitch classes are taken from the Circle of
//! Fifths (Stephen Malinowski's Harmonic Coloring); this crate names the
//! notes of a key, describes their harmonic function, and decides how the
//! colour table and a Cubase preferences file are rewritten.

pub mod text;
pub mod pitch;
pub mod scale;
pub mod cli;
pub mod note;
pub mod degree;
pub mod color;
pub mod cubase;
pub mod render;
