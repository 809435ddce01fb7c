//! The fretboard of a stringed instrument: which note sounds on which string
//! behind which fret.

use crate::error::MusicError;
use crate::music::note::{Interval, NaturalNoteName, Note};
use vstd::prelude::*;

verus! {

/// A place to play a note: a finger on a string and behind a fret, or the
/// open string where the fret is 0. Strings count from 1.
#[derive(Clone, Copy, Debug, PartialEq, Eq, Hash)]
pub struct Point {
    on_string: u8,
    behind_fret: u8,
}

impl Point {
    #[verifier::type_invariant]
    spec fn on_a_string(self) -> bool {
        self.on_string >= 1
    }

    /// The string of this point.
    pub closed spec fn spec_on_string(&self) -> u8 {
        self.on_string
    }

    /// The fret of this point.
    pub closed spec fn spec_behind_fret(&self) -> u8 {
        self.behind_fret
    }

    /// The point on the string `on_string` behind the fret `behind_fret`.
    /// There is no string 0.
    pub fn of(on_string: u8, behind_fret: u8) -> (r: Result<Point, MusicError>)
        ensures
            on_string == 0 ==> r == Err::<Point, MusicError>(MusicError::InvalidPoint),
            on_string != 0 ==> (r matches Ok(point) && point.on_string() == on_string
                && point.behind_fret() == behind_fret),
    {
        if on_string == 0 {
            return Err(MusicError::InvalidPoint);
        }
        Ok(Point { on_string, behind_fret })
    }

    /// The string of this point, which is never 0.
    #[verifier::when_used_as_spec(spec_on_string)]
    pub fn on_string(&self) -> (string: u8)
        ensures
            string == self.on_string(),
            string >= 1,
    {
        proof {
            use_type_invariant(self);
        }
        self.on_string
    }

    /// The fret of this point.
    #[verifier::when_used_as_spec(spec_behind_fret)]
    pub fn behind_fret(&self) -> (fret: u8)
        ensures
            fret == self.behind_fret(),
    {
        self.behind_fret
    }
}

/// The inlay that marks a fret on the neck.
#[derive(Clone, Copy, Debug, PartialEq, Eq, Structural)]
pub enum FretMark {
    SingleDot,
    DoubleDot,
}

impl FretMark {
    /// The inlay of the fret `fret_num`: two dots on each octave of the open
    /// string, frets 12 and 24; one dot on the frets 3, 5, 7 and 9 of each
    /// octave; none elsewhere.
    pub open spec fn spec_of_fret(fret_num: u8) -> Option<FretMark> {
        if fret_num == 12 || fret_num == 24 {
            Some(FretMark::DoubleDot)
        } else if fret_num == 3 || fret_num == 5 || fret_num == 7 || fret_num == 9 || fret_num
            == 15 || fret_num == 17 || fret_num == 19 || fret_num == 21 {
            Some(FretMark::SingleDot)
        } else {
            None
        }
    }

    /// The inlay of the fret `fret_num`, if it has one.
    #[verifier::when_used_as_spec(spec_of_fret)]
    pub fn of_fret(fret_num: u8) -> (mark: Option<FretMark>)
        ensures
            mark == FretMark::of_fret(fret_num),
    {
        match fret_num {
            3 | 5 | 7 | 9 | 15 | 17 | 19 | 21 => Some(FretMark::SingleDot),
            12 | 24 => Some(FretMark::DoubleDot),
            _ => None,
        }
    }
}

/// The standard tuning of a guitar, from string 1, the highest, to string 6:
/// E4, B3, G3, D3, A2, E2.
pub open spec fn standard_tuning() -> Seq<(u8, Note)> {
    seq![
        (1u8, Note::of_natural(NaturalNoteName::E, 4)),
        (2u8, Note::of_natural(NaturalNoteName::B, 3)),
        (3u8, Note::of_natural(NaturalNoteName::G, 3)),
        (4u8, Note::of_natural(NaturalNoteName::D, 3)),
        (5u8, Note::of_natural(NaturalNoteName::A, 2)),
        (6u8, Note::of_natural(NaturalNoteName::E, 2)),
    ]
}

/// What holds of the tuning of every fretboard: the strings are numbered from
/// 1, no number is used twice, and behind every fret of every string sounds a
/// note that exists, neither below the C of octave 0 nor above octave 255.
pub open spec fn valid_tuning(tuning: Seq<(u8, Note)>) -> bool {
    &&& forall|i: int| 0 <= i < tuning.len() ==> (#[trigger] tuning[i]).0 >= 1
    &&& forall|i: int, j: int|
        0 <= i < j < tuning.len() ==> (#[trigger] tuning[i]).0 != (#[trigger] tuning[j]).0
    &&& forall|i: int|
        0 <= i < tuning.len() ==> 0 <= (#[trigger] tuning[i]).1.position() && (
        tuning[i].1.position() + u8::MAX) / 12 <= u8::MAX
}

/// The standard tuning: see [`standard_tuning`].
pub fn zero_frets_standard_tuning() -> (tuning: Vec<(u8, Note)>)
    ensures
        tuning@ == standard_tuning(),
{
    let mut tuning: Vec<(u8, Note)> = Vec::new();
    tuning.push((1, Note::of_natural(NaturalNoteName::E, 4)));
    tuning.push((2, Note::of_natural(NaturalNoteName::B, 3)));
    tuning.push((3, Note::of_natural(NaturalNoteName::G, 3)));
    tuning.push((4, Note::of_natural(NaturalNoteName::D, 3)));
    tuning.push((5, Note::of_natural(NaturalNoteName::A, 2)));
    tuning.push((6, Note::of_natural(NaturalNoteName::E, 2)));
    assert(tuning@ =~= standard_tuning());
    tuning
}

/// The strings of an instrument, each with the note of the open string, and
/// the number of its fret bars. Frets count from 0, the open string, up to
/// one less than the number of bars.
pub struct FretBoard {
    zero_frets_tuning: Vec<(u8, Note)>,
    fret_bar_cnt: u8,
}

impl FretBoard {
    #[verifier::type_invariant]
    spec fn well_tuned(self) -> bool {
        valid_tuning(self.zero_frets_tuning@)
    }

    /// The strings in their order on the board, each with the note of the open string.
    pub closed spec fn tuning(self) -> Seq<(u8, Note)> {
        self.zero_frets_tuning@
    }

    /// The number of fret bars.
    pub closed spec fn spec_fret_bar_cnt(&self) -> u8 {
        self.fret_bar_cnt
    }

    /// The numbers of the strings, in their order on the board.
    pub open spec fn string_names(self) -> Seq<u8> {
        Seq::new(self.tuning().len(), |i: int| self.tuning()[i].0)
    }

    /// Whether the board has a string of this number.
    pub open spec fn has_string(self, string: u8) -> bool {
        exists|i: int| 0 <= i < self.tuning().len() && (#[trigger] self.tuning()[i]).0 == string
    }

    /// The place of the string `string` among the strings of the board, from
    /// 0, for a string that the board has.
    pub open spec fn string_position(self, string: u8) -> int {
        choose|i: int| 0 <= i < self.tuning().len() && (#[trigger] self.tuning()[i]).0 == string
    }

    /// The note of the open string `string`, for a string that the board has.
    pub open spec fn open_note(self, string: u8) -> Note {
        self.tuning()[self.string_position(string)].1
    }

    /// The string at place `i` of a board is at no other place.
    pub proof fn lemma_string_position(self, i: int)
        requires
            valid_tuning(self.tuning()),
            0 <= i < self.tuning().len(),
        ensures
            self.has_string(self.tuning()[i].0),
            self.string_position(self.tuning()[i].0) == i,
    {
    }

    /// The note that sounds at `point`: the note of the open string, raised
    /// by one semitone for each fret. A point on a string that the board does
    /// not have is no point of the board.
    pub open spec fn note_at(self, point: Point) -> Result<Note, MusicError> {
        if self.has_string(point.on_string()) {
            self.open_note(point.on_string()).plus(point.behind_fret() as int)
        } else {
            Err(MusicError::InvalidPoint)
        }
    }

    /// A guitar in standard tuning with 24 fret bars.
    pub fn of_standard() -> (board: FretBoard)
        ensures
            board.tuning() == standard_tuning(),
            board.fret_bar_cnt() == 24,
    {
        FretBoard::of_fret_cnt(24)
    }

    /// A guitar in standard tuning with `fret_bar_cnt` fret bars.
    pub fn of_fret_cnt(fret_bar_cnt: u8) -> (board: FretBoard)
        ensures
            board.tuning() == standard_tuning(),
            board.fret_bar_cnt() == fret_bar_cnt,
    {
        let zero_frets_tuning = zero_frets_standard_tuning();
        assert(valid_tuning(zero_frets_tuning@));
        FretBoard { zero_frets_tuning, fret_bar_cnt }
    }

    /// The numbers of the strings, in their order on the board.
    pub fn string_name_vec(&self) -> (names: Vec<u8>)
        ensures
            names@ == self.string_names(),
            valid_tuning(self.tuning()),
    {
        proof {
            use_type_invariant(self);
        }
        let mut names: Vec<u8> = Vec::new();
        for i in 0..self.zero_frets_tuning.len()
            invariant
                names@ == self.string_names().take(i as int),
        {
            names.push(self.zero_frets_tuning[i].0);
            assert(names@ =~= self.string_names().take(i + 1));
        }
        assert(names@ =~= self.string_names());
        names
    }

    /// The number of fret bars.
    #[verifier::when_used_as_spec(spec_fret_bar_cnt)]
    pub fn fret_bar_cnt(&self) -> (count: u8)
        ensures
            count == self.fret_bar_cnt(),
    {
        self.fret_bar_cnt
    }

    /// The note of the open string `string`.
    pub fn zero_fret_note_of_string(&self, string: u8) -> (r: Result<Note, MusicError>)
        ensures
            self.has_string(string) ==> r == Ok::<Note, MusicError>(self.open_note(string)),
            !self.has_string(string) ==> r == Err::<Note, MusicError>(MusicError::InvalidPoint),
            r matches Ok(note) ==> 0 <= note.position() && (note.position() + u8::MAX) / 12
                <= u8::MAX,
    {
        proof {
            use_type_invariant(self);
        }
        for i in 0..self.zero_frets_tuning.len()
            invariant
                valid_tuning(self.tuning()),
                forall|j: int| 0 <= j < i ==> (#[trigger] self.tuning()[j]).0 != string,
        {
            if self.zero_frets_tuning[i].0 == string {
                assert(self.tuning()[i as int].0 == string);
                return Ok(self.zero_frets_tuning[i].1);
            }
        }
        Err(MusicError::InvalidPoint)
    }

    /// The note that sounds at `point`: see [`FretBoard::note_at`].
    pub fn note_of_point(&self, point: Point) -> (r: Result<Note, MusicError>)
        ensures
            r == self.note_at(point),
            self.has_string(point.on_string()) ==> r is Ok,
    {
        match self.zero_fret_note_of_string(point.on_string()) {
            Ok(open) => open.add_interval(&Interval::of_semitone_diff(point.behind_fret() as i32)),
            Err(e) => Err(e),
        }
    }
}

} // verus!
