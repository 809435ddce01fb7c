//! Pitches, intervals, scales and the notes of a stringed instrument's fretboard.

pub mod error;
pub mod fret_board;
pub mod music;
pub mod service;
