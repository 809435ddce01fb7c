//! The ways in which an input can break the rules of the library.

use vstd::prelude::*;

verus! {

/// Why an operation refused its input.
#[derive(Clone, Copy, Debug, PartialEq, Eq, Structural)]
pub enum MusicError {
    /// A pitch-class number was not one of 0 to 11.
    InvalidPitchClassNumber,
    /// The steps of a scale do not add up to an octave, or a step of a
    /// diatonic scale is neither a half tone nor a whole tone.
    InvalidStepPattern,
    /// A point names string 0, or a string that the fretboard does not have.
    InvalidPoint,
    /// A scale degree to omit lies outside the scale it is taken from.
    InvalidScaleDegree,
    /// The result would lie below the C of octave 0.
    OctaveUnderflow,
    /// The result would lie above octave 255, the highest an octave number can hold.
    OctaveOverflow,
}

} // verus!
