use chess_core::error::MoveError;
use chess_core::game::{Color, Piece, PieceKind};

const KINDS: [(char, PieceKind); 6] = [
    ('K', PieceKind::King),
    ('Q', PieceKind::Queen),
    ('B', PieceKind::Bishop),
    ('N', PieceKind::Knight),
    ('R', PieceKind::Rook),
    ('P', PieceKind::Pawn),
];

const COLORS: [(char, Color); 2] = [('W', Color::White), ('B', Color::Black)];

#[test]
fn material_values() {
    assert_eq!(PieceKind::Queen.material_value(), 9);
    assert_eq!(PieceKind::Rook.material_value(), 5);
    assert_eq!(PieceKind::Bishop.material_value(), 3);
    assert_eq!(PieceKind::Knight.material_value(), 3);
    assert_eq!(PieceKind::Pawn.material_value(), 1);
    assert_eq!(PieceKind::King.material_value(), 0);
}

#[test]
fn kind_letters() {
    for (letter, kind) in KINDS {
        assert_eq!(kind.char(), letter);
        assert_eq!(PieceKind::from_char(letter), Some(kind));
    }
    assert_eq!(PieceKind::from_char('k'), None);
    assert_eq!(PieceKind::from_char('W'), None);
    assert_eq!(PieceKind::from_char(' '), None);
}

#[test]
fn color_letters() {
    for (letter, color) in COLORS {
        assert_eq!(color.char(), letter);
        assert_eq!(Color::from_char(letter), Some(color));
    }
    assert_eq!(Color::from_char('w'), None);
    assert_eq!(Color::from_char('K'), None);
}

#[test]
fn new_piece_has_not_moved() {
    let piece = Piece::new(PieceKind::Knight, Color::Black);
    assert_eq!(piece.kind, PieceKind::Knight);
    assert_eq!(piece.color, Color::Black);
    assert_eq!(piece.move_count, 0);
}

#[test]
fn piece_codes_round_trip() {
    for (color_letter, color) in COLORS {
        for (kind_letter, kind) in KINDS {
            let code = format!("{}{}", color_letter, kind_letter);
            let piece = Piece::new_from(&code).unwrap();
            assert_eq!(piece.kind, kind);
            assert_eq!(piece.color, color);
            assert_eq!(piece.move_count, 0);
            assert_eq!(piece.to_notation(), code);
            let again = Piece::from_notation(&piece.to_notation()).unwrap();
            assert_eq!(again.kind, kind);
            assert_eq!(again.color, color);
        }
    }
}

#[test]
fn piece_code_ignores_move_count() {
    let piece = Piece { kind: PieceKind::Rook, color: Color::White, move_count: 7 };
    assert_eq!(piece.to_notation(), "WR");
    let read = Piece::from_notation("WR").unwrap();
    assert_eq!(read.move_count, 0);
}

#[test]
fn piece_code_rejects_other_texts() {
    assert!(Piece::from_notation("").is_none());
    assert!(Piece::from_notation("W").is_none());
    assert!(Piece::from_notation("WKK").is_none());
    assert!(Piece::from_notation("wk").is_none());
    assert!(Piece::from_notation("KW").is_none());
    assert!(Piece::from_notation("WX").is_none());
    assert!(Piece::from_notation("XK").is_none());
}

#[test]
fn move_error_descriptions() {
    assert_eq!(
        MoveError::PieceNotFoundError.description(),
        "no piece found at the specified position"
    );
    assert_eq!(MoveError::IllegalMoveError.description(), "illegal move");
    assert_eq!(MoveError::OutOfTurnError.description(), "cannot move out of turn");
}
