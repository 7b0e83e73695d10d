use chess_core::error::ParseError;
use chess_core::moves::Position;
use std::str::FromStr;

#[test]
fn notation_reads_file_then_rank() {
    assert_eq!(Position::from_notation("E4"), Ok(Position { rank: 4, file: 4 }));
    assert_eq!(Position::from_notation("A8"), Ok(Position { rank: 0, file: 0 }));
    assert_eq!(Position::from_notation("H1"), Ok(Position { rank: 7, file: 7 }));
    assert_eq!(Position::from_notation("C2"), Ok(Position { rank: 6, file: 2 }));
}

#[test]
fn notation_accepts_lower_case_files() {
    assert_eq!(Position::from_notation("e4"), Ok(Position { rank: 4, file: 4 }));
    assert_eq!(Position::from_notation("a1"), Ok(Position { rank: 7, file: 0 }));
    assert_eq!(Position::from_notation("h8"), Ok(Position { rank: 0, file: 7 }));
}

#[test]
fn notation_rejects_wrong_length() {
    assert_eq!(Position::from_notation(""), Err(ParseError::Length));
    assert_eq!(Position::from_notation("E"), Err(ParseError::Length));
    assert_eq!(Position::from_notation("E44"), Err(ParseError::Length));
    assert_eq!(Position::from_notation(" E4"), Err(ParseError::Length));
}

#[test]
fn notation_rejects_bad_file() {
    assert_eq!(Position::from_notation("I4"), Err(ParseError::File));
    assert_eq!(Position::from_notation("4E"), Err(ParseError::File));
    assert_eq!(Position::from_notation("@1"), Err(ParseError::File));
    assert_eq!(Position::from_notation("i9"), Err(ParseError::File));
    assert_eq!(Position::from_notation("\u{c9}4"), Err(ParseError::File));
}

#[test]
fn notation_rejects_bad_rank() {
    assert_eq!(Position::from_notation("E9"), Err(ParseError::Rank));
    assert_eq!(Position::from_notation("E0"), Err(ParseError::Rank));
    assert_eq!(Position::from_notation("EE"), Err(ParseError::Rank));
}

#[test]
fn notation_writes_upper_case() {
    assert_eq!(Position::new(4, 4).to_notation(), "E4");
    assert_eq!(Position::new(0, 0).to_notation(), "A8");
    assert_eq!(Position::new(7, 7).to_notation(), "H1");
    assert_eq!(Position::new(7, 0).to_notation(), "A1");
}

#[test]
fn notation_round_trips_on_every_square() {
    for rank in 0..8 {
        for file in 0..8 {
            let position = Position::new(rank, file);
            let text = position.to_notation();
            assert_eq!(Position::from_notation(&text), Ok(position));
            assert_eq!(Position::from_notation(&text.to_lowercase()), Ok(position));
        }
    }
}

#[test]
fn from_str_reads_notation() {
    assert_eq!(Position::from_str("D1"), Ok(Position { rank: 7, file: 3 }));
    assert_eq!(Position::from_str("D"), Err(ParseError::Length));
    assert_eq!("E8".parse::<Position>(), Ok(Position { rank: 0, file: 4 }));
}

#[test]
fn validate_accepts_the_board_only() {
    assert!(Position::validate(0, 0));
    assert!(Position::validate(7, 7));
    assert!(!Position::validate(8, 0));
    assert!(!Position::validate(0, 8));
    assert!(!Position::validate(usize::MAX, usize::MAX));
}

#[test]
fn new_keeps_coordinates() {
    let position = Position::new(2, 5);
    assert_eq!(position.rank, 2);
    assert_eq!(position.file, 5);
}

#[test]
fn translate_moves_by_signed_offsets() {
    let position = Position::new(3, 3);
    assert_eq!(position.translate(1, -2), Some(Position { rank: 4, file: 1 }));
    assert_eq!(position.translate(-3, 4), Some(Position { rank: 0, file: 7 }));
    assert_eq!(position.translate(0, 0), Some(position));
    assert_eq!(position.translate(4, -3), Some(Position { rank: 7, file: 0 }));
}

#[test]
fn translate_stops_at_the_edge() {
    let position = Position::new(3, 3);
    assert_eq!(position.translate(-4, 0), None);
    assert_eq!(position.translate(5, 0), None);
    assert_eq!(position.translate(0, -4), None);
    assert_eq!(position.translate(0, 5), None);
    assert_eq!(Position::new(0, 0).translate(-1, -1), None);
    assert_eq!(Position::new(7, 7).translate(1, 1), None);
}

#[test]
fn translate_survives_extreme_offsets() {
    let position = Position::new(7, 7);
    assert_eq!(position.translate(isize::MAX, 0), None);
    assert_eq!(position.translate(isize::MIN, 0), None);
    assert_eq!(position.translate(0, isize::MAX), None);
    assert_eq!(position.translate(isize::MIN, isize::MIN), None);
    assert_eq!(position.translate(8, 0), None);
    assert_eq!(position.translate(-8, 0), None);
    assert_eq!(position.translate(-7, -7), Some(Position { rank: 0, file: 0 }));
}
