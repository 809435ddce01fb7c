//! Scales: the pitch classes reached from a root by a pattern of semitone steps.

use crate::error::MusicError;
use crate::music::note::{middle_c, sharp_name, Interval, Note, NoteName};
use vstd::prelude::*;

verus! {

/// The sum of the steps of a pattern.
pub open spec fn step_sum(steps: Seq<u8>) -> int
    decreases steps.len(),
{
    if steps.len() == 0 {
        0
    } else {
        step_sum(steps.drop_last()) + steps.last()
    }
}

/// The scale on `root` with the step pattern `steps`: one pitch class for each
/// step, spelled with sharps. The first is the root's, and each next one lies
/// above the root by the steps before it.
pub open spec fn scale_of(root: NoteName, steps: Seq<u8>) -> Seq<NoteName> {
    Seq::new(
        steps.len(),
        |i: int| sharp_name((root.directional_number() + step_sum(steps.take(i))) % 12),
    )
}

/// No pattern has a negative sum.
proof fn lemma_step_sum_nonnegative(steps: Seq<u8>)
    ensures
        0 <= step_sum(steps),
    decreases steps.len(),
{
    if steps.len() > 0 {
        lemma_step_sum_nonnegative(steps.drop_last());
    }
}

/// The steps up to any place in a pattern sum to no more than all of them,
/// and one step more adds that step.
pub proof fn lemma_step_sum_of_prefix(steps: Seq<u8>, i: int)
    requires
        0 <= i <= steps.len(),
    ensures
        0 <= step_sum(steps.take(i)) <= step_sum(steps),
        i < steps.len() ==> step_sum(steps.take(i + 1)) == step_sum(steps.take(i)) + steps[i],
        i == steps.len() ==> step_sum(steps.take(i)) == step_sum(steps),
    decreases steps.len() - i,
{
    lemma_step_sum_nonnegative(steps.take(i));
    if i < steps.len() {
        assert(steps.take(i + 1).drop_last() =~= steps.take(i));
        lemma_step_sum_of_prefix(steps, i + 1);
    } else {
        assert(steps.take(i) =~= steps);
    }
}

/// Builds the scale on `root` from a cyclic pattern of semitone steps, which
/// must add up to an octave.
pub fn scale_from_steps<const N: usize>(root: NoteName, semitone_step_arr: [u8; N]) -> (r: Result<
    [NoteName; N],
    MusicError,
>)
    ensures
        step_sum(semitone_step_arr@) == 12 ==> (r matches Ok(scale) && scale@ == scale_of(
            root,
            semitone_step_arr@,
        )),
        step_sum(semitone_step_arr@) != 12 ==> r == Err::<[NoteName; N], MusicError>(
            MusicError::InvalidStepPattern,
        ),
{
    let ghost steps = semitone_step_arr@;
    let mut step_sum_so_far: u32 = 0;
    for i in 0..N
        invariant
            steps == semitone_step_arr@,
            step_sum_so_far == step_sum(steps.take(i as int)),
            step_sum_so_far <= 12,
    {
        proof {
            lemma_step_sum_of_prefix(steps, i as int);
            lemma_step_sum_of_prefix(steps, i + 1);
        }
        step_sum_so_far = step_sum_so_far + semitone_step_arr[i] as u32;
        if step_sum_so_far > 12 {
            return Err(MusicError::InvalidStepPattern);
        }
    }
    proof {
        lemma_step_sum_of_prefix(steps, N as int);
    }
    if step_sum_so_far != 12 {
        return Err(MusicError::InvalidStepPattern);
    }
    let root_note = root.on_octave(4);
    let mut scale: [NoteName; N] = [root; N];
    let mut semitone_acc: u8 = 0;
    for i in 0..N
        invariant
            steps == semitone_step_arr@,
            step_sum(steps) == 12,
            root_note == (Note { name: root, octave: 4 }),
            semitone_acc == step_sum(steps.take(i as int)),
            forall|j: int| 0 <= j < i ==> scale@[j] == scale_of(root, steps)[j],
    {
        proof {
            lemma_step_sum_of_prefix(steps, i as int);
            lemma_step_sum_of_prefix(steps, i + 1);
        }
        let interval = Interval::of_semitone_diff(semitone_acc as i32);
        match root_note.add_interval(&interval) {
            Ok(note) => {
                scale[i] = note.note_name();
            },
            Err(e) => {
                return Err(e);
            },
        }
        semitone_acc = semitone_acc + semitone_step_arr[i];
    }
    assert(scale@ =~= scale_of(root, steps));
    Ok(scale)
}

/// A whole tone, in semitones.
pub const W: u8 = 2;

/// A half tone, in semitones.
pub const H: u8 = 1;

/// Whether every step of a pattern is a half tone or a whole tone.
pub open spec fn all_whole_or_half(steps: Seq<u8>) -> bool {
    forall|i: int| 0 <= i < steps.len() ==> steps[i] == H || steps[i] == W
}

/// The steps of the major scale.
pub open spec fn major_steps() -> Seq<u8> {
    seq![W, W, H, W, W, W, H]
}

/// The steps of the natural minor scale.
pub open spec fn minor_steps() -> Seq<u8> {
    seq![W, H, W, W, H, W, W]
}

/// The steps of the dorian scale.
pub open spec fn dorian_steps() -> Seq<u8> {
    seq![W, H, W, W, W, H, W]
}

/// The sum of a pattern of seven steps, written out.
proof fn lemma_sum_of_seven(steps: Seq<u8>)
    requires
        steps.len() == 7,
    ensures
        step_sum(steps) == steps[0] + steps[1] + steps[2] + steps[3] + steps[4] + steps[5]
            + steps[6],
{
    lemma_step_sum_of_prefix(steps, 0);
    lemma_step_sum_of_prefix(steps, 1);
    lemma_step_sum_of_prefix(steps, 2);
    lemma_step_sum_of_prefix(steps, 3);
    lemma_step_sum_of_prefix(steps, 4);
    lemma_step_sum_of_prefix(steps, 5);
    lemma_step_sum_of_prefix(steps, 6);
    lemma_step_sum_of_prefix(steps, 7);
    assert(steps.take(0).len() == 0);
}

/// Builds a scale of seven notes on `root`: [`scale_from_steps`] for seven steps.
pub fn heptatonic_scale_from_steps(root: NoteName, semitone_step_arr: [u8; 7]) -> (r: Result<
    [NoteName; 7],
    MusicError,
>)
    ensures
        step_sum(semitone_step_arr@) == 12 ==> (r matches Ok(scale) && scale@ == scale_of(
            root,
            semitone_step_arr@,
        )),
        step_sum(semitone_step_arr@) != 12 ==> r == Err::<[NoteName; 7], MusicError>(
            MusicError::InvalidStepPattern,
        ),
{
    scale_from_steps(root, semitone_step_arr)
}

/// Builds a diatonic scale on `root`: seven steps, each a half tone or a whole
/// tone, which add up to an octave.
pub fn diatonic_scale_from_steps(root: NoteName, semitone_step_arr: [u8; 7]) -> (r: Result<
    [NoteName; 7],
    MusicError,
>)
    ensures
        all_whole_or_half(semitone_step_arr@) && step_sum(semitone_step_arr@) == 12 ==> (r matches Ok(
            scale,
        ) && scale@ == scale_of(root, semitone_step_arr@)),
        !(all_whole_or_half(semitone_step_arr@) && step_sum(semitone_step_arr@) == 12) ==> r
            == Err::<[NoteName; 7], MusicError>(MusicError::InvalidStepPattern),
{
    for i in 0..7
        invariant
            forall|j: int| 0 <= j < i ==> semitone_step_arr@[j] == H || semitone_step_arr@[j] == W,
    {
        let step = semitone_step_arr[i];
        if step != H && step != W {
            return Err(MusicError::InvalidStepPattern);
        }
    }
    scale_from_steps(root, semitone_step_arr)
}

/// The major scale on `root`.
pub fn major_scale_of(root: NoteName) -> (scale: [NoteName; 7])
    ensures
        scale@ == scale_of(root, major_steps()),
{
    let steps: [u8; 7] = [W, W, H, W, W, W, H];
    proof {
        assert(steps@ =~= major_steps());
        lemma_sum_of_seven(steps@);
    }
    diatonic_scale_from_steps(root, steps).unwrap()
}

/// The natural minor scale on `root`.
pub fn minor_scale_of(root: NoteName) -> (scale: [NoteName; 7])
    ensures
        scale@ == scale_of(root, minor_steps()),
{
    let steps: [u8; 7] = [W, H, W, W, H, W, W];
    proof {
        assert(steps@ =~= minor_steps());
        lemma_sum_of_seven(steps@);
    }
    diatonic_scale_from_steps(root, steps).unwrap()
}

/// The dorian scale on `root`.
pub fn dorian_scale_of(root: NoteName) -> (scale: [NoteName; 7])
    ensures
        scale@ == scale_of(root, dorian_steps()),
{
    let steps: [u8; 7] = [W, H, W, W, W, H, W];
    proof {
        assert(steps@ =~= dorian_steps());
        lemma_sum_of_seven(steps@);
    }
    diatonic_scale_from_steps(root, steps).unwrap()
}

/// What is left of a scale of seven notes once two degrees are taken out, one
/// after the other. Degrees count from 1. The second degree is counted in the
/// six notes that are left after the first is gone, not in the seven.
pub open spec fn pentatonic_of(heptatonic: Seq<NoteName>, omit1: int, omit2: int) -> Seq<
    NoteName,
> {
    heptatonic.remove(omit1 - 1).remove(omit2 - 1)
}

/// Takes two degrees out of a scale of seven notes: see [`pentatonic_of`].
///
/// The first degree must be one of 1 to 7 and the second one of 1 to 6.
pub fn pentatonic_scale_by_omitting(
    heptatonic: [NoteName; 7],
    omit_number_notation1: &usize,
    omit_number_notation2: &usize,
) -> (r: Result<[NoteName; 5], MusicError>)
    ensures
        1 <= *omit_number_notation1 <= 7 && 1 <= *omit_number_notation2 <= 6 ==> (r matches Ok(
            scale,
        ) && scale@ == pentatonic_of(
            heptatonic@,
            *omit_number_notation1 as int,
            *omit_number_notation2 as int,
        )),
        !(1 <= *omit_number_notation1 <= 7 && 1 <= *omit_number_notation2 <= 6) ==> r == Err::<
            [NoteName; 5],
            MusicError,
        >(MusicError::InvalidScaleDegree),
{
    let omit1: usize = *omit_number_notation1;
    let omit2: usize = *omit_number_notation2;
    if omit1 < 1 || omit1 > 7 || omit2 < 1 || omit2 > 6 {
        return Err(MusicError::InvalidScaleDegree);
    }
    let mut tmp_vec: Vec<NoteName> = Vec::new();
    for i in 0..7
        invariant
            tmp_vec@ == heptatonic@.take(i as int),
    {
        tmp_vec.push(heptatonic[i]);
    }
    assert(tmp_vec@ =~= heptatonic@);
    tmp_vec.remove(omit1 - 1);
    tmp_vec.remove(omit2 - 1);
    let scale = [tmp_vec[0], tmp_vec[1], tmp_vec[2], tmp_vec[3], tmp_vec[4]];
    assert(scale@ =~= tmp_vec@);
    Ok(scale)
}

/// The major scale on `root` without its degrees 4 and 7, by
/// [`pentatonic_scale_by_omitting`].
///
/// Once degree 4 is gone six notes are left, and there is no seventh among
/// them to take out: every root is refused.
pub fn major_pentatonic_scale_of(root: NoteName) -> (r: Result<[NoteName; 5], MusicError>)
    ensures
        r == Err::<[NoteName; 5], MusicError>(MusicError::InvalidScaleDegree),
{
    pentatonic_scale_by_omitting(major_scale_of(root), &4, &7)
}

/// The natural minor scale on `root` without its degree 2 and without the
/// sixth of the notes that are then left, by [`pentatonic_scale_by_omitting`]:
/// the degrees 1, 3, 4, 5 and 6 of the minor scale.
pub fn minor_pentatonic_scale_of(root: NoteName) -> (r: Result<[NoteName; 5], MusicError>)
    ensures
        r matches Ok(scale) && scale@ == pentatonic_of(scale_of(root, minor_steps()), 2, 6),
{
    pentatonic_scale_by_omitting(minor_scale_of(root), &2, &6)
}

/// Whether the note at `i` of a scale lies on the octave after the root's:
/// its pitch class is below that of the root, the first note of the scale.
pub open spec fn on_next_octave(scale: Seq<NoteName>, i: int) -> bool {
    scale[i].pitch_class_number() < scale[0].pitch_class_number()
}

/// The octave on which the note at `i` of a scale is written when the root is
/// written on `root_octave`.
pub open spec fn octave_of_degree(scale: Seq<NoteName>, root_octave: int, i: int) -> int {
    if on_next_octave(scale, i) {
        root_octave + 1
    } else {
        root_octave
    }
}

/// A scale that can be written out as notes, its root on a given octave.
///
/// The scale is taken to span no more than an octave from its root, which is
/// its first note: it crosses from one octave to the next at most once.
pub trait Absolutifiable<const N: usize> {
    /// The notes of the scale, the root on `root_octave`.
    fn on_octave(self, root_octave: u8) -> Result<[Note; N], MusicError>;
}

impl<const N: usize> Absolutifiable<N> for [NoteName; N] {
    /// Each name of the scale becomes a note: on `root_octave` where its
    /// pitch class is not below the root's, else one octave higher. On octave
    /// 255 no name can go one octave higher.
    fn on_octave(self, root_octave: u8) -> (r: Result<[Note; N], MusicError>)
        ensures
            r is Err <==> root_octave == u8::MAX && exists|i: int|
                0 <= i < N && on_next_octave(self@, i),
            r matches Err(e) ==> e == MusicError::OctaveOverflow,
            r matches Ok(notes) ==> forall|i: int|
                0 <= i < N ==> (#[trigger] notes@[i]).name == self@[i] && notes@[i].octave
                    == octave_of_degree(self@, root_octave as int, i),
    {
        if N == 0 {
            return Ok([middle_c();N]);
        }
        let root = self[0];
        let root_note_name_int = root.integer_notation();
        let mut notes: [Note; N] = [root.on_octave(root_octave);N];
        for i in 0..N
            invariant
                N > 0,
                root_note_name_int == self@[0].pitch_class_number(),
                forall|j: int|
                    0 <= j < i ==> (#[trigger] notes@[j]).name == self@[j] && notes@[j].octave
                        == octave_of_degree(self@, root_octave as int, j),
                root_octave == u8::MAX ==> forall|j: int| 0 <= j < i ==> !on_next_octave(self@, j),
        {
            let note_name = self[i];
            let note_name_int = note_name.integer_notation();
            if note_name_int >= root_note_name_int {
                notes[i] = note_name.on_octave(root_octave);
            } else {
                if root_octave == u8::MAX {
                    assert(on_next_octave(self@, i as int));
                    return Err(MusicError::OctaveOverflow);
                }
                notes[i] = note_name.on_octave(root_octave + 1);
            }
        }
        Ok(notes)
    }
}

} // verus!
