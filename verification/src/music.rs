//! Pitch names, notes, intervals and scales.

pub mod note;
pub mod scale;
