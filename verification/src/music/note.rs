//! Pitch classes, notes on an octave, and the intervals between them.
//!
//! Pitches are equal-tempered: a pitch class is a number from 0 to 11, and two
//! spellings of one pitch class (C sharp and D flat) are the same pitch class.

use crate::error::MusicError;
use vstd::prelude::*;
use vstd::std_specs::cmp::PartialEqSpec;

verus! {

/// One of the seven letter names of the natural notes.
#[derive(Clone, Copy, Debug, PartialEq, Eq, Structural)]
pub enum NaturalNoteName {
    C,
    D,
    E,
    F,
    G,
    A,
    B,
}

/// A sharp raises a natural note by one semitone, a flat lowers it by one.
#[derive(Clone, Copy, Debug, PartialEq, Eq, Structural)]
pub enum Accidental {
    Sharp,
    Flat,
}

/// A pitch class as it is spelled: a natural note and an optional accidental.
///
/// Two names are equal (`==`) when they have the same pitch-class number,
/// however they are spelled.
#[derive(Clone, Copy, Debug)]
pub struct NoteName {
    pub natural_note_name: NaturalNoteName,
    pub accidental: Option<Accidental>,
}

/// Semitones that an accidental adds to its natural note.
pub open spec fn accidental_offset(accidental: Option<Accidental>) -> int {
    match accidental {
        Some(Accidental::Sharp) => 1,
        Some(Accidental::Flat) => -1,
        None => 0,
    }
}

/// The sharp-preferring spelling of the pitch class `n`, for `n` from 0 to 11:
/// C, C#, D, D#, E, F, F#, G, G#, A, A#, B.
pub open spec fn sharp_name(n: int) -> NoteName {
    NoteName {
        natural_note_name: if n <= 1 {
            NaturalNoteName::C
        } else if n <= 3 {
            NaturalNoteName::D
        } else if n == 4 {
            NaturalNoteName::E
        } else if n <= 6 {
            NaturalNoteName::F
        } else if n <= 8 {
            NaturalNoteName::G
        } else if n <= 10 {
            NaturalNoteName::A
        } else {
            NaturalNoteName::B
        },
        accidental: if n == 1 || n == 3 || n == 6 || n == 8 || n == 10 {
            Some(Accidental::Sharp)
        } else {
            None
        },
    }
}

impl NaturalNoteName {
    /// Semitones from C up to this natural note, within one octave.
    pub open spec fn semitone(self) -> int {
        match self {
            NaturalNoteName::C => 0,
            NaturalNoteName::D => 2,
            NaturalNoteName::E => 4,
            NaturalNoteName::F => 5,
            NaturalNoteName::G => 7,
            NaturalNoteName::A => 9,
            NaturalNoteName::B => 11,
        }
    }

    /// This natural note without an accidental.
    pub fn natural(self) -> (name: NoteName)
        ensures
            name == (NoteName { natural_note_name: self, accidental: None }),
    {
        NoteName { natural_note_name: self, accidental: None }
    }

    /// This natural note raised by a semitone.
    pub fn sharp(self) -> (name: NoteName)
        ensures
            name == (NoteName { natural_note_name: self, accidental: Some(Accidental::Sharp) }),
    {
        NoteName { natural_note_name: self, accidental: Some(Accidental::Sharp) }
    }

    /// This natural note lowered by a semitone.
    pub fn flat(self) -> (name: NoteName)
        ensures
            name == (NoteName { natural_note_name: self, accidental: Some(Accidental::Flat) }),
    {
        NoteName { natural_note_name: self, accidental: Some(Accidental::Flat) }
    }
}

impl NoteName {
    /// Semitones from C to this name, not reduced to one octave: C flat is -1
    /// and B sharp is 12, so that a name keeps its place relative to the C of
    /// the octave it is written on.
    pub open spec fn directional_number(self) -> int {
        self.natural_note_name.semitone() + accidental_offset(self.accidental)
    }

    /// The pitch class of this name: its directional number modulo 12.
    pub open spec fn pitch_class_number(self) -> int {
        self.directional_number() % 12
    }

    /// Computes [`NoteName::directional_number`].
    pub fn directional_integer_notation(&self) -> (d: i8)
        ensures
            d == self.directional_number(),
            -1 <= d <= 12,
    {
        let natural_part: i8 = match self.natural_note_name {
            NaturalNoteName::C => 0,
            NaturalNoteName::D => 2,
            NaturalNoteName::E => 4,
            NaturalNoteName::F => 5,
            NaturalNoteName::G => 7,
            NaturalNoteName::A => 9,
            NaturalNoteName::B => 11,
        };
        let accidental_part: i8 = match self.accidental {
            Some(Accidental::Sharp) => 1,
            Some(Accidental::Flat) => -1,
            None => 0,
        };
        natural_part + accidental_part
    }

    /// Computes [`NoteName::pitch_class_number`], which is always one of 0 to 11.
    pub fn integer_notation(&self) -> (n: u8)
        ensures
            n == self.pitch_class_number(),
            n <= 11,
    {
        let d: i8 = self.directional_integer_notation();
        if d < 0 {
            (d + 12) as u8
        } else if d >= 12 {
            (d - 12) as u8
        } else {
            d as u8
        }
    }
}

/// A signed distance between two notes, in semitones: positive when the first
/// note sounds above the second.
#[derive(Clone, Copy, Debug, PartialEq, Eq, Structural)]
pub struct Interval {
    pub semitone_diff: i32,
}

/// Semitones in a unison.
pub const UNISON: i32 = 0;

/// Semitones in a minor second.
pub const MINOR_SECOND: i32 = 1;

/// Semitones in a major second.
pub const MAJOR_SECOND: i32 = 2;

/// Semitones in a minor third.
pub const MINOR_THIRD: i32 = 3;

/// Semitones in a major third.
pub const MAJOR_THIRD: i32 = 4;

/// Semitones in a perfect fourth.
pub const PERFECT_FOURTH: i32 = 5;

/// Semitones in a tritone.
pub const TRITONE: i32 = 6;

/// Semitones in a perfect fifth.
pub const PERFECT_FIFTH: i32 = 7;

/// Semitones in a minor sixth.
pub const MINOR_SIXTH: i32 = 8;

/// Semitones in a major sixth.
pub const MAJOR_SIXTH: i32 = 9;

/// Semitones in a minor seventh.
pub const MINOR_SEVENTH: i32 = 10;

/// Semitones in a major seventh.
pub const MAJOR_SEVENTH: i32 = 11;

/// Semitones in an octave.
pub const OCTAVE: i32 = 12;

/// A pitch: a name written on an octave.
///
/// Two notes are equal (`==`) when no semitone lies between them, so that
/// B sharp on octave 3 equals C on octave 4.
#[derive(Clone, Copy, Debug)]
pub struct Note {
    pub name: NoteName,
    pub octave: u8,
}

/// The letter of a natural note.
pub open spec fn natural_letter(natural: NaturalNoteName) -> char {
    match natural {
        NaturalNoteName::C => 'C',
        NaturalNoteName::D => 'D',
        NaturalNoteName::E => 'E',
        NaturalNoteName::F => 'F',
        NaturalNoteName::G => 'G',
        NaturalNoteName::A => 'A',
        NaturalNoteName::B => 'B',
    }
}

/// How a name is written: its letter, then `#` for a sharp, `b` for a flat,
/// and nothing for a natural.
pub open spec fn spelling(name: NoteName) -> Seq<char> {
    match name.accidental {
        Some(Accidental::Sharp) => seq![natural_letter(name.natural_note_name), '#'],
        Some(Accidental::Flat) => seq![natural_letter(name.natural_note_name), 'b'],
        None => seq![natural_letter(name.natural_note_name)],
    }
}

impl NoteName {
    /// The sharp-preferring name of the pitch class `integer_notation`, see
    /// [`sharp_name`]; a number above 11 is no pitch class.
    pub fn of_integer_notation_as_sharp(integer_notation: u8) -> (r: Result<NoteName, MusicError>)
        ensures
            integer_notation <= 11 ==> r == Ok::<NoteName, MusicError>(
                sharp_name(integer_notation as int),
            ),
            integer_notation > 11 ==> r == Err::<NoteName, MusicError>(
                MusicError::InvalidPitchClassNumber,
            ),
    {
        let natural_note_name = match integer_notation {
            0 | 1 => NaturalNoteName::C,
            2 | 3 => NaturalNoteName::D,
            4 => NaturalNoteName::E,
            5 | 6 => NaturalNoteName::F,
            7 | 8 => NaturalNoteName::G,
            9 | 10 => NaturalNoteName::A,
            11 => NaturalNoteName::B,
            _ => {
                return Err(MusicError::InvalidPitchClassNumber);
            },
        };
        let accidental = match integer_notation {
            1 | 3 | 6 | 8 | 10 => Some(Accidental::Sharp),
            _ => None,
        };
        Ok(NoteName { natural_note_name, accidental })
    }

    /// This name on the octave `octave`.
    pub fn on_octave(self, octave: u8) -> (note: Note)
        ensures
            note == (Note { name: self, octave }),
    {
        Note { name: self, octave }
    }

    /// The name as text: see [`spelling`].
    pub fn string_representation(self) -> (text: String)
        ensures
            text@ == spelling(self),
    {
        let letter: &str = match self.natural_note_name {
            NaturalNoteName::C => "C",
            NaturalNoteName::D => "D",
            NaturalNoteName::E => "E",
            NaturalNoteName::F => "F",
            NaturalNoteName::G => "G",
            NaturalNoteName::A => "A",
            NaturalNoteName::B => "B",
        };
        let accidental_str: &str = match self.accidental {
            Some(Accidental::Sharp) => "#",
            Some(Accidental::Flat) => "b",
            None => "",
        };
        proof {
            reveal_strlit("C");
            reveal_strlit("D");
            reveal_strlit("E");
            reveal_strlit("F");
            reveal_strlit("G");
            reveal_strlit("A");
            reveal_strlit("B");
            reveal_strlit("#");
            reveal_strlit("b");
            reveal_strlit("");
        }
        let text = String::from_str(letter).concat(accidental_str);
        assert(text@ =~= spelling(self));
        text
    }
}

impl Interval {
    /// The interval of `semitone_diff` semitones.
    pub fn of_semitone_diff(semitone_diff: i32) -> (interval: Interval)
        ensures
            interval == (Interval { semitone_diff }),
    {
        Interval { semitone_diff }
    }

    /// The number of semitones in this interval.
    pub fn semitone_diff(&self) -> (d: i32)
        ensures
            d == self.semitone_diff,
    {
        self.semitone_diff
    }

    /// How far above the lower note the upper note lies once both are brought
    /// into one octave: the interval modulo 12, which is one of 0 to 11 for a
    /// falling interval too.
    pub fn semitones_within_octave(&self) -> (d: u8)
        ensures
            d == self.semitone_diff as int % 12,
            d <= 11,
    {
        let remainder: i32 = self.semitone_diff % 12;
        if remainder < 0 {
            (remainder + 12) as u8
        } else {
            remainder as u8
        }
    }
}

impl Note {
    /// Semitones from the C of octave 0 up to this note. Only C flat on
    /// octave 0 lies below that C.
    pub open spec fn position(self) -> int {
        self.octave * 12 + self.name.directional_number()
    }

    /// Signed distance in semitones from `other` up to this note.
    pub open spec fn semitones_from(self, other: Note) -> int {
        (self.name.directional_number() - other.name.directional_number()) + (self.octave
            - other.octave) * 12
    }

    /// The note that lies `position` semitones above the C of octave 0, in
    /// sharp-preferring spelling, for a position from 0 up to the B of octave 255.
    pub open spec fn at_position(position: int) -> Note {
        Note { name: sharp_name(position % 12), octave: (position / 12) as u8 }
    }

    /// The note `semitones` above this one (below it, where `semitones` is
    /// negative), or why there is no such note.
    pub open spec fn plus(self, semitones: int) -> Result<Note, MusicError> {
        let position = self.position() + semitones;
        if position < 0 {
            Err(MusicError::OctaveUnderflow)
        } else if position / 12 > u8::MAX {
            Err(MusicError::OctaveOverflow)
        } else {
            Ok(Note::at_position(position))
        }
    }

    /// The natural note `note_name` on the octave `octave`.
    pub open spec fn spec_of_natural(note_name: NaturalNoteName, octave: u8) -> Note {
        Note { name: NoteName { natural_note_name: note_name, accidental: None }, octave }
    }

    /// The natural note `note_name` on the octave `octave`.
    #[verifier::when_used_as_spec(spec_of_natural)]
    pub fn of_natural(note_name: NaturalNoteName, octave: u8) -> (note: Note)
        ensures
            note == Note::of_natural(note_name, octave),
    {
        Note { name: NoteName { natural_note_name: note_name, accidental: None }, octave }
    }

    /// The note `note_name` with `accidental` on the octave `octave`.
    pub fn of(note_name: NaturalNoteName, accidental: Accidental, octave: u8) -> (note: Note)
        ensures
            note == (Note {
                name: NoteName { natural_note_name: note_name, accidental: Some(accidental) },
                octave,
            }),
    {
        Note { name: NoteName { natural_note_name: note_name, accidental: Some(accidental) }, octave }
    }

    /// The pitch class `integer_notation`, in sharp-preferring spelling, on the
    /// octave `octave`; a number above 11 is no pitch class.
    pub fn of_integer_notation(integer_notation: u8, octave: u8) -> (r: Result<Note, MusicError>)
        ensures
            integer_notation <= 11 ==> r == Ok::<Note, MusicError>(
                Note { name: sharp_name(integer_notation as int), octave },
            ),
            integer_notation > 11 ==> r == Err::<Note, MusicError>(
                MusicError::InvalidPitchClassNumber,
            ),
    {
        match NoteName::of_integer_notation_as_sharp(integer_notation) {
            Ok(name) => Ok(Note { name, octave }),
            Err(e) => Err(e),
        }
    }

    /// The name of this note, without its octave.
    pub fn note_name(&self) -> (name: NoteName)
        ensures
            name == self.name,
    {
        self.name
    }

    /// The octave that this note is written on.
    pub fn octave(&self) -> (octave: u8)
        ensures
            octave == self.octave,
    {
        self.octave
    }

    /// The name of this note as text, without its octave: see [`spelling`].
    pub fn string_representation(self) -> (text: String)
        ensures
            text@ == spelling(self.name),
    {
        self.name.string_representation()
    }

    /// The interval from `other_note` up to this note.
    pub fn minus_note(&self, other_note: &Note) -> (interval: Interval)
        ensures
            interval.semitone_diff == self.semitones_from(*other_note),
            interval.semitone_diff == self.position() - other_note.position(),
    {
        let note_name_part: i32 = self.name.directional_integer_notation() as i32
            - other_note.name.directional_integer_notation() as i32;
        let octave_part: i32 = (self.octave as i32 - other_note.octave as i32) * 12;
        Interval { semitone_diff: note_name_part + octave_part }
    }

    /// The note that lies `interval` above this one, spelled with sharps.
    ///
    /// There is none below the C of octave 0, and none above octave 255.
    pub fn add_interval(&self, interval: &Interval) -> (r: Result<Note, MusicError>)
        ensures
            r == self.plus(interval.semitone_diff as int),
    {
        let self_from_octave_zero: i64 = self.octave as i64 * 12
            + self.name.directional_integer_notation() as i64;
        let res_from_octave_zero: i64 = self_from_octave_zero + interval.semitone_diff as i64;
        if res_from_octave_zero < 0 {
            return Err(MusicError::OctaveUnderflow);
        }
        if res_from_octave_zero / 12 > 255 {
            return Err(MusicError::OctaveOverflow);
        }
        let res_int_nota: u8 = (res_from_octave_zero % 12) as u8;
        let res_octave: u8 = (res_from_octave_zero / 12) as u8;
        match NoteName::of_integer_notation_as_sharp(res_int_nota) {
            Ok(name) => Ok(name.on_octave(res_octave)),
            Err(e) => Err(e),
        }
    }
}

/// Middle C: the C of octave 4.
pub fn middle_c() -> (note: Note)
    ensures
        note == (Note {
            name: NoteName { natural_note_name: NaturalNoteName::C, accidental: None },
            octave: 4,
        }),
{
    Note::of_natural(NaturalNoteName::C, 4)
}

/// The sharp-preferring name of a pitch class has that pitch class, and its
/// directional number is the pitch-class number itself.
pub proof fn lemma_sharp_name_round_trip(n: int)
    requires
        0 <= n <= 11,
    ensures
        sharp_name(n).pitch_class_number() == n,
        sharp_name(n).directional_number() == n,
{
}

/// The pitch-class number of every name is one of 0 to 11.
pub proof fn lemma_pitch_class_number_in_range(name: NoteName)
    ensures
        0 <= name.pitch_class_number() <= 11,
{
}

/// The note at a position lies at that position.
pub proof fn lemma_at_position(position: int)
    requires
        0 <= position,
        position / 12 <= u8::MAX,
    ensures
        Note::at_position(position).position() == position,
{
    lemma_sharp_name_round_trip(position % 12);
}

/// Adding two intervals one after the other is adding their sum: where this
/// note plus `i1` exists, adding `i2` to it gives what adding `i1 + i2` to
/// this note gives, the same note or the same refusal.
pub proof fn lemma_add_interval_additive(note: Note, i1: Interval, i2: Interval)
    requires
        note.plus(i1.semitone_diff as int) is Ok,
    ensures
        note.plus(i1.semitone_diff as int).unwrap().plus(i2.semitone_diff as int) == note.plus(
            i1.semitone_diff + i2.semitone_diff,
        ),
{
    lemma_at_position(note.position() + i1.semitone_diff);
}

/// Adding to `b` the interval from `b` up to `a` gives a note equal to `a`:
/// the note at the position of `a`, spelled with sharps. This holds of every
/// `a` that lies neither below the C of octave 0 nor above octave 255.
pub proof fn lemma_add_difference_restores(a: Note, b: Note)
    requires
        0 <= a.position(),
        a.position() / 12 <= u8::MAX,
    ensures
        b.plus(a.semitones_from(b)) == Ok::<Note, MusicError>(Note::at_position(a.position())),
        b.plus(a.semitones_from(b)).unwrap().eq_spec(&a),
{
    lemma_at_position(a.position());
}

impl PartialEq for NoteName {
    fn eq(&self, other: &Self) -> (r: bool) {
        self.integer_notation() == other.integer_notation()
    }
}

impl vstd::std_specs::cmp::PartialEqSpecImpl for NoteName {
    open spec fn obeys_eq_spec() -> bool {
        true
    }

    open spec fn eq_spec(&self, other: &Self) -> bool {
        self.pitch_class_number() == other.pitch_class_number()
    }
}

impl PartialEq for Note {
    fn eq(&self, other: &Self) -> (r: bool) {
        self.minus_note(other).semitone_diff == 0
    }
}

impl vstd::std_specs::cmp::PartialEqSpecImpl for Note {
    open spec fn obeys_eq_spec() -> bool {
        true
    }

    open spec fn eq_spec(&self, other: &Self) -> bool {
        self.semitones_from(*other) == 0
    }
}

} // verus!
