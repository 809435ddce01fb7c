use fretboard_theory::error::MusicError;
use fretboard_theory::fret_board::{zero_frets_standard_tuning, FretBoard, FretMark, Point};
use fretboard_theory::music::note::NaturalNoteName::{A, B, D, E, G};
use fretboard_theory::music::note::Note;

fn written(note: Note) -> (String, u8) {
    (note.string_representation(), note.octave())
}

#[test]
fn open_low_e_and_high_e_at_the_octave() {
    let board = FretBoard::of_standard();
    assert_eq!(
        board.note_of_point(Point::of(6, 0).unwrap()),
        Ok(Note::of_natural(E, 2))
    );
    assert_eq!(
        board.note_of_point(Point::of(1, 12).unwrap()),
        Ok(Note::of_natural(E, 5))
    );
    assert_eq!(
        written(board.note_of_point(Point::of(6, 0).unwrap()).unwrap()),
        ("E".to_string(), 2)
    );
    assert_eq!(
        written(board.note_of_point(Point::of(1, 12).unwrap()).unwrap()),
        ("E".to_string(), 5)
    );
}

#[test]
fn standard_tuning_from_the_highest_string() {
    let tuning = zero_frets_standard_tuning();
    let expected = [
        (1, Note::of_natural(E, 4)),
        (2, Note::of_natural(B, 3)),
        (3, Note::of_natural(G, 3)),
        (4, Note::of_natural(D, 3)),
        (5, Note::of_natural(A, 2)),
        (6, Note::of_natural(E, 2)),
    ];
    assert_eq!(tuning.len(), 6);
    for (got, want) in tuning.iter().zip(expected.iter()) {
        assert_eq!(got.0, want.0);
        assert_eq!(written(got.1), written(want.1));
    }
}

#[test]
fn boards() {
    let board = FretBoard::of_standard();
    assert_eq!(board.fret_bar_cnt(), 24);
    assert_eq!(board.string_name_vec(), vec![1, 2, 3, 4, 5, 6]);
    let short = FretBoard::of_fret_cnt(4);
    assert_eq!(short.fret_bar_cnt(), 4);
    assert_eq!(short.string_name_vec(), vec![1, 2, 3, 4, 5, 6]);
    assert_eq!(FretBoard::of_fret_cnt(0).fret_bar_cnt(), 0);
    assert_eq!(FretBoard::of_fret_cnt(255).fret_bar_cnt(), 255);
}

#[test]
fn open_strings() {
    let board = FretBoard::of_standard();
    let open: Vec<(String, u8)> = (1..=6)
        .map(|string| written(board.zero_fret_note_of_string(string).unwrap()))
        .collect();
    assert_eq!(
        open,
        vec![
            ("E".to_string(), 4),
            ("B".to_string(), 3),
            ("G".to_string(), 3),
            ("D".to_string(), 3),
            ("A".to_string(), 2),
            ("E".to_string(), 2),
        ]
    );
    assert_eq!(board.zero_fret_note_of_string(0), Err(MusicError::InvalidPoint));
    assert_eq!(board.zero_fret_note_of_string(7), Err(MusicError::InvalidPoint));
}

#[test]
fn each_fret_is_a_semitone() {
    let board = FretBoard::of_standard();
    let on_b: Vec<(String, u8)> = (0..=5)
        .map(|fret| written(board.note_of_point(Point::of(2, fret).unwrap()).unwrap()))
        .collect();
    assert_eq!(
        on_b,
        vec![
            ("B".to_string(), 3),
            ("C".to_string(), 4),
            ("C#".to_string(), 4),
            ("D".to_string(), 4),
            ("D#".to_string(), 4),
            ("E".to_string(), 4),
        ]
    );
    // A fret beyond the last bar still has its note.
    assert_eq!(
        written(FretBoard::of_fret_cnt(4).note_of_point(Point::of(6, 255).unwrap()).unwrap()),
        ("G".to_string(), 23)
    );
}

#[test]
fn there_is_no_string_0() {
    assert_eq!(Point::of(0, 0), Err(MusicError::InvalidPoint));
    assert_eq!(Point::of(0, 12), Err(MusicError::InvalidPoint));
    let point = Point::of(255, 255).unwrap();
    assert_eq!(point.on_string(), 255);
    assert_eq!(point.behind_fret(), 255);
    let point = Point::of(1, 0).unwrap();
    assert_eq!((point.on_string(), point.behind_fret()), (1, 0));
}

#[test]
fn a_point_on_a_missing_string_is_no_point_of_the_board() {
    let board = FretBoard::of_standard();
    assert_eq!(
        board.note_of_point(Point::of(7, 0).unwrap()),
        Err(MusicError::InvalidPoint)
    );
    assert_eq!(
        board.note_of_point(Point::of(255, 3).unwrap()),
        Err(MusicError::InvalidPoint)
    );
}

#[test]
fn points_are_equal_by_string_and_fret() {
    assert_eq!(Point::of(3, 2), Point::of(3, 2));
    assert_ne!(Point::of(3, 2), Point::of(2, 3));
    assert_ne!(Point::of(3, 2), Point::of(3, 3));
}

#[test]
fn inlays() {
    let single: Vec<u8> =
        (0..=255u8).filter(|fret| FretMark::of_fret(*fret) == Some(FretMark::SingleDot)).collect();
    assert_eq!(single, vec![3, 5, 7, 9, 15, 17, 19, 21]);
    let double: Vec<u8> =
        (0..=255u8).filter(|fret| FretMark::of_fret(*fret) == Some(FretMark::DoubleDot)).collect();
    assert_eq!(double, vec![12, 24]);
    assert_eq!(FretMark::of_fret(0), None);
    assert_eq!(FretMark::of_fret(1), None);
}

#[test]
fn b_is_written_on_string_2() {
    let board = FretBoard::of_standard();
    assert_eq!(
        board.zero_fret_note_of_string(2).unwrap(),
        B.natural().on_octave(3)
    );
}
