use std::collections::HashSet;
use std::hash::Hash;

use fretboard_theory::fret_board::{FretBoard, Point};
use fretboard_theory::music::note::NaturalNoteName::{A, C, E};
use fretboard_theory::music::note::NoteName;
use fretboard_theory::music::scale;
use fretboard_theory::service::scale_map::{scale_contains, scale_notes_on_fretboard};

fn point(on_string: u8, behind_fret: u8) -> Point {
    Point::of(on_string, behind_fret).unwrap()
}

fn is_unordered_equal<T>(a: &[T], b: &[T]) -> bool
where
    T: Eq + Hash,
{
    let a: HashSet<_> = a.iter().collect();
    let b: HashSet<_> = b.iter().collect();

    a == b
}

#[test]
fn major_c_on_0_to_4() {
    assert!(is_unordered_equal(
        &[
            point(1, 0), point(1, 1),              point(1, 3),
            point(2, 0), point(2, 1),              point(2, 3),
            point(3, 0),              point(3, 2),
            point(4, 0),              point(4, 2), point(4, 3),
            point(5, 0),              point(5, 2), point(5, 3),
            point(6, 0), point(6, 1),              point(6, 3),
        ],
        &scale_notes_on_fretboard(
            &FretBoard::of_fret_cnt(4),
            scale::major_scale_of(C.natural())
        )
    ));
}

#[test]
fn no_point_is_listed_twice() {
    let points =
        scale_notes_on_fretboard(&FretBoard::of_standard(), scale::major_scale_of(C.natural()));
    let distinct: HashSet<&Point> = points.iter().collect();
    assert_eq!(distinct.len(), points.len());
    // Seven of the twelve pitch classes, on 6 strings of 24 frets, two octaves each.
    assert_eq!(points.len(), 6 * 14);
}

#[test]
fn every_listed_point_sounds_in_the_scale_and_no_other_does() {
    let board = FretBoard::of_fret_cnt(13);
    let scale = scale::dorian_scale_of(A.natural());
    let points = scale_notes_on_fretboard(&board, scale);
    for string in board.string_name_vec() {
        for fret in 0..board.fret_bar_cnt() {
            let here = point(string, fret);
            let name = board.note_of_point(here).unwrap().note_name();
            assert_eq!(points.contains(&here), scale.contains(&name));
        }
    }
    assert!(points.iter().all(|p| p.behind_fret() < 13 && 1 <= p.on_string() && p.on_string() <= 6));
}

#[test]
fn a_board_without_frets_has_no_points() {
    let points =
        scale_notes_on_fretboard(&FretBoard::of_fret_cnt(0), scale::major_scale_of(C.natural()));
    assert!(points.is_empty());
}

#[test]
fn an_empty_scale_has_no_points() {
    let no_names: [NoteName; 0] = [];
    assert!(scale_notes_on_fretboard(&FretBoard::of_standard(), no_names).is_empty());
}

#[test]
fn a_scale_of_one_note_lies_on_its_octaves() {
    let points = scale_notes_on_fretboard(&FretBoard::of_fret_cnt(13), [E.natural()]);
    assert!(is_unordered_equal(
        &[
            point(1, 0), point(1, 12),
            point(2, 5),
            point(3, 9),
            point(4, 2),
            point(5, 7),
            point(6, 0), point(6, 12),
        ],
        &points
    ));
}

#[test]
fn membership_goes_by_pitch_class() {
    let scale = scale::minor_scale_of(C.natural());
    assert!(scale_contains(&scale, &E.flat()));
    assert!(scale_contains(&scale, &fretboard_theory::music::note::NaturalNoteName::D.sharp()));
    assert!(!scale_contains(&scale, &E.natural()));
    assert!(scale_contains(&scale, &fretboard_theory::music::note::NaturalNoteName::B.sharp()));
}

#[test]
fn points_come_string_by_string_and_fret_by_fret() {
    let points =
        scale_notes_on_fretboard(&FretBoard::of_fret_cnt(4), scale::major_scale_of(C.natural()));
    let coordinates: Vec<(u8, u8)> =
        points.iter().map(|p| (p.on_string(), p.behind_fret())).collect();
    assert_eq!(
        coordinates,
        vec![
            (1, 0), (1, 1), (1, 3),
            (2, 0), (2, 1), (2, 3),
            (3, 0), (3, 2),
            (4, 0), (4, 2), (4, 3),
            (5, 0), (5, 2), (5, 3),
            (6, 0), (6, 1), (6, 3),
        ]
    );
}
