//! Where on a fretboard the notes of a scale lie.

use crate::fret_board::{valid_tuning, FretBoard, Point};
use crate::music::note::NoteName;
use vstd::prelude::*;
use vstd::std_specs::cmp::PartialEqSpec;

verus! {

/// Whether a scale holds the pitch class of `name`, however it is spelled.
pub open spec fn in_scale(scale: Seq<NoteName>, name: NoteName) -> bool {
    exists|i: int| 0 <= i < scale.len() && (#[trigger] scale[i]).eq_spec(&name)
}

/// Whether the board has the string `string` and the fret `fret`, and the note
/// that sounds there belongs to the scale.
pub open spec fn sounds_in_scale(
    fretboard: FretBoard,
    scale: Seq<NoteName>,
    string: u8,
    fret: u8,
) -> bool {
    &&& fretboard.has_string(string)
    &&& fret < fretboard.fret_bar_cnt()
    &&& fretboard.open_note(string).plus(fret as int) matches Ok(note) && in_scale(
        scale,
        note.name,
    )
}

/// Whether a list of points holds the point on `string` behind `fret`.
pub open spec fn lists_point(points: Seq<Point>, string: u8, fret: u8) -> bool {
    exists|k: int|
        0 <= k < points.len() && (#[trigger] points[k]).on_string() == string
            && points[k].behind_fret() == fret
}

/// Whether `p` comes before `q` on the board: on an earlier string, or on
/// the same string behind a lower fret.
pub open spec fn comes_before(fretboard: FretBoard, p: Point, q: Point) -> bool {
    fretboard.string_position(p.on_string()) < fretboard.string_position(q.on_string()) || (
    p.on_string() == q.on_string() && p.behind_fret() < q.behind_fret())
}

/// Whether a scale holds the pitch class of `name`: see [`in_scale`].
pub fn scale_contains<const N: usize>(scale: &[NoteName; N], name: &NoteName) -> (found: bool)
    ensures
        found == in_scale(scale@, *name),
{
    for i in 0..N
        invariant
            forall|j: int| 0 <= j < i ==> !(#[trigger] scale@[j]).eq_spec(name),
    {
        if scale[i] == *name {
            return true;
        }
    }
    false
}

/// Every point of the fretboard whose note belongs to the scale: each string
/// of the board with each of its frets, from the open string up to the last
/// fret bar. The points come string by string in the order of the board, and
/// on each string from the lowest fret up, so that none comes twice.
pub fn scale_notes_on_fretboard<const N: usize>(fretboard: &FretBoard, scale: [NoteName; N]) -> (points:
    Vec<Point>)
    ensures
        forall|k: int|
            0 <= k < points.len() ==> sounds_in_scale(
                *fretboard,
                scale@,
                (#[trigger] points@[k]).on_string(),
                points@[k].behind_fret(),
            ),
        forall|string: u8, fret: u8| #[trigger]
            sounds_in_scale(*fretboard, scale@, string, fret) ==> lists_point(points@, string, fret),
        forall|k1: int, k2: int|
            0 <= k1 < k2 < points.len() ==> comes_before(
                *fretboard,
                #[trigger] points@[k1],
                #[trigger] points@[k2],
            ),
{
    let mut scale_notes: Vec<Point> = Vec::new();
    let string_names = fretboard.string_name_vec();
    let fret_bar_cnt = fretboard.fret_bar_cnt();
    let ghost mut string_index: Seq<int> = Seq::empty();
    for s in 0..string_names.len()
        invariant
            string_names@ == fretboard.string_names(),
            valid_tuning(fretboard.tuning()),
            fret_bar_cnt == fretboard.fret_bar_cnt(),
            string_index.len() == scale_notes.len(),
            forall|k: int|
                0 <= k < scale_notes.len() ==> 0 <= (#[trigger] string_index[k]) < s
                    && string_names@[string_index[k]] == scale_notes@[k].on_string(),
            forall|k: int|
                0 <= k < scale_notes.len() ==> sounds_in_scale(
                    *fretboard,
                    scale@,
                    (#[trigger] scale_notes@[k]).on_string(),
                    scale_notes@[k].behind_fret(),
                ),
            forall|i: int, fret: u8|
                0 <= i < s && sounds_in_scale(*fretboard, scale@, string_names@[i], fret)
                    ==> #[trigger] lists_point(scale_notes@, string_names@[i], fret),
            forall|k1: int, k2: int|
                0 <= k1 < k2 < scale_notes.len() ==> (#[trigger] string_index[k1])
                    < (#[trigger] string_index[k2]) || (string_index[k1] == string_index[k2]
                    && scale_notes@[k1].behind_fret() < scale_notes@[k2].behind_fret()),
    {
        let string_name = string_names[s];
        assert(fretboard.tuning()[s as int].0 == string_name);
        for fret_bar in 0..fret_bar_cnt
            invariant
                0 <= s < string_names.len(),
                string_name == string_names@[s as int],
                fretboard.has_string(string_name),
                string_name >= 1,
                string_names@ == fretboard.string_names(),
                valid_tuning(fretboard.tuning()),
                fret_bar_cnt == fretboard.fret_bar_cnt(),
                string_index.len() == scale_notes.len(),
                forall|k: int|
                    0 <= k < scale_notes.len() ==> 0 <= (#[trigger] string_index[k]) <= s
                        && string_names@[string_index[k]] == scale_notes@[k].on_string() && (
                    string_index[k] == s ==> scale_notes@[k].behind_fret() < fret_bar),
                forall|k: int|
                    0 <= k < scale_notes.len() ==> sounds_in_scale(
                        *fretboard,
                        scale@,
                        (#[trigger] scale_notes@[k]).on_string(),
                        scale_notes@[k].behind_fret(),
                    ),
                forall|i: int, fret: u8|
                    0 <= i < s && sounds_in_scale(*fretboard, scale@, string_names@[i], fret)
                        ==> #[trigger] lists_point(scale_notes@, string_names@[i], fret),
                forall|fret: u8|
                    fret < fret_bar && sounds_in_scale(*fretboard, scale@, string_name, fret)
                        ==> #[trigger] lists_point(scale_notes@, string_name, fret),
                forall|k1: int, k2: int|
                    0 <= k1 < k2 < scale_notes.len() ==> (#[trigger] string_index[k1])
                        < (#[trigger] string_index[k2]) || (string_index[k1] == string_index[k2]
                        && scale_notes@[k1].behind_fret() < scale_notes@[k2].behind_fret()),
        {
            let cur_point = Point::of(string_name, fret_bar).unwrap();
            let cur_note = fretboard.note_of_point(cur_point).unwrap();
            let ghost before = scale_notes@;
            if scale_contains(&scale, &cur_note.note_name()) {
                scale_notes.push(cur_point);
                proof {
                    string_index = string_index.push(s as int);
                    assert(scale_notes@[before.len() as int] == cur_point);
                }
            }
            proof {
                assert forall|i: int, fret: u8|
                    0 <= i < s && sounds_in_scale(
                        *fretboard,
                        scale@,
                        string_names@[i],
                        fret,
                    ) implies #[trigger] lists_point(scale_notes@, string_names@[i], fret) by {
                    assert(lists_point(before, string_names@[i], fret));
                    let k = choose|k: int|
                        0 <= k < before.len() && (#[trigger] before[k]).on_string()
                            == string_names@[i] && before[k].behind_fret() == fret;
                    assert(scale_notes@[k] == before[k]);
                }
                assert forall|fret: u8|
                    fret < fret_bar + 1 && sounds_in_scale(
                        *fretboard,
                        scale@,
                        string_name,
                        fret,
                    ) implies #[trigger] lists_point(scale_notes@, string_name, fret) by {
                    if fret < fret_bar {
                        assert(lists_point(before, string_name, fret));
                        let k = choose|k: int|
                            0 <= k < before.len() && (#[trigger] before[k]).on_string()
                                == string_name && before[k].behind_fret() == fret;
                        assert(scale_notes@[k] == before[k]);
                    } else {
                        assert(scale_notes@[before.len() as int] == cur_point);
                    }
                }
            }
        }
    }
    proof {
        assert forall|k1: int, k2: int| 0 <= k1 < k2 < scale_notes.len() implies comes_before(
            *fretboard,
            #[trigger] scale_notes@[k1],
            #[trigger] scale_notes@[k2],
        ) by {
            fretboard.lemma_string_position(string_index[k1]);
            fretboard.lemma_string_position(string_index[k2]);
        }
        assert forall|string: u8, fret: u8| #[trigger]
            sounds_in_scale(*fretboard, scale@, string, fret) implies lists_point(
            scale_notes@,
            string,
            fret,
        ) by {
            let i = choose|i: int|
                0 <= i < fretboard.tuning().len() && (#[trigger] fretboard.tuning()[i]).0
                    == string;
            assert(string_names@[i] == string);
        }
    }
    scale_notes
}

} // verus!
