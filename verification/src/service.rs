//! What the fretboard and the scales answer together.

pub mod scale_map;
