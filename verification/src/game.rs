//! Pieces, the board, and a game in progress.
use vstd::prelude::*;
use vstd::string::*;

use crate::clock::now_millis;
use crate::error::MoveError;
use crate::moves::{digit_of_rank, on_board, Position};
use crate::text::push_char;

verus! {

/// The six kinds of chess piece.
#[derive(Copy, Clone, Debug, PartialEq, Eq, Structural)]
pub enum PieceKind {
    King,
    Queen,
    Bishop,
    Knight,
    Rook,
    Pawn,
}

impl PieceKind {
    /// The letter that stands for this kind in a piece code.
    pub open spec fn code(self) -> char {
        match self {
            PieceKind::King => 'K',
            PieceKind::Queen => 'Q',
            PieceKind::Bishop => 'B',
            PieceKind::Knight => 'N',
            PieceKind::Rook => 'R',
            PieceKind::Pawn => 'P',
        }
    }

    /// The kind that a letter stands for, if any.
    pub open spec fn of_code(name: char) -> Option<PieceKind> {
        if name == 'K' {
            Some(PieceKind::King)
        } else if name == 'Q' {
            Some(PieceKind::Queen)
        } else if name == 'B' {
            Some(PieceKind::Bishop)
        } else if name == 'N' {
            Some(PieceKind::Knight)
        } else if name == 'R' {
            Some(PieceKind::Rook)
        } else if name == 'P' {
            Some(PieceKind::Pawn)
        } else {
            None
        }
    }

    /// The conventional material value of the kind.
    pub open spec fn value(self) -> nat {
        match self {
            PieceKind::Queen => 9,
            PieceKind::Rook => 5,
            PieceKind::Bishop => 3,
            PieceKind::Knight => 3,
            PieceKind::Pawn => 1,
            PieceKind::King => 0,
        }
    }

    /// Reads a kind from its letter.
    pub fn from_char(name: char) -> (kind: Option<PieceKind>)
        ensures
            kind == Self::of_code(name),
    {
        match name {
            'K' => Some(PieceKind::King),
            'Q' => Some(PieceKind::Queen),
            'B' => Some(PieceKind::Bishop),
            'N' => Some(PieceKind::Knight),
            'R' => Some(PieceKind::Rook),
            'P' => Some(PieceKind::Pawn),
            _ => None,
        }
    }

    /// The letter of this kind.
    pub fn char(&self) -> (name: char)
        ensures
            name == self.code(),
    {
        match *self {
            PieceKind::King => 'K',
            PieceKind::Queen => 'Q',
            PieceKind::Bishop => 'B',
            PieceKind::Knight => 'N',
            PieceKind::Rook => 'R',
            PieceKind::Pawn => 'P',
        }
    }

    /// The material value of this kind. It plays no part in move legality.
    pub fn material_value(&self) -> (value: usize)
        ensures
            value == self.value(),
    {
        match *self {
            PieceKind::Queen => 9,
            PieceKind::Rook => 5,
            PieceKind::Bishop => 3,
            PieceKind::Knight => 3,
            PieceKind::Pawn => 1,
            PieceKind::King => 0,
        }
    }
}

/// The two sides.
#[derive(Copy, Clone, Debug, PartialEq, Eq, PartialOrd, Ord, Structural)]
pub enum Color {
    Black,
    White,
}

impl Color {
    /// The letter that stands for this side in a piece code.
    pub open spec fn code(self) -> char {
        match self {
            Color::Black => 'B',
            Color::White => 'W',
        }
    }

    /// The side that a letter stands for, if any.
    pub open spec fn of_code(c: char) -> Option<Color> {
        if c == 'B' {
            Some(Color::Black)
        } else if c == 'W' {
            Some(Color::White)
        } else {
            None
        }
    }

    /// Reads a side from its letter.
    pub fn from_char(c: char) -> (color: Option<Color>)
        ensures
            color == Self::of_code(c),
    {
        match c {
            'B' => Some(Color::Black),
            'W' => Some(Color::White),
            _ => None,
        }
    }

    /// The letter of this side.
    pub fn char(&self) -> (c: char)
        ensures
            c == self.code(),
    {
        match *self {
            Color::Black => 'B',
            Color::White => 'W',
        }
    }
}

/// A piece: what it is, whose it is, and how often it has moved.
#[derive(Copy, Clone, Debug)]
pub struct Piece {
    /// The kind of piece. This also indicates its value.
    pub kind: PieceKind,
    /// The color (owner) of the piece.
    pub color: Color,
    /// The number of moves that the piece has made.
    pub move_count: usize,
}

impl Piece {
    /// The two-character code of a piece: the side's letter, then the kind's.
    pub open spec fn notation(self) -> Seq<char> {
        seq![self.color.code(), self.kind.code()]
    }

    /// The piece that a text denotes, if it is a piece code. The piece has not moved.
    pub open spec fn of_notation(text: Seq<char>) -> Option<Piece> {
        if text.len() == 2 && Color::of_code(text[0]) is Some && PieceKind::of_code(
            text[1],
        ) is Some {
            Some(
                Piece {
                    kind: PieceKind::of_code(text[1]).unwrap(),
                    color: Color::of_code(text[0]).unwrap(),
                    move_count: 0,
                },
            )
        } else {
            None
        }
    }

    /// A piece that has not moved yet.
    pub fn new(kind: PieceKind, color: Color) -> (piece: Piece)
        ensures
            piece == (Piece { kind, color, move_count: 0 }),
    {
        Piece { kind, color, move_count: 0 }
    }

    /// Reads a piece from its two-character code, or reports that the text is
    /// not a piece code.
    pub fn from_notation(notation: &str) -> (piece: Option<Piece>)
        ensures
            piece == Self::of_notation(notation@),
    {
        if notation.unicode_len() != 2 {
            return None;
        }
        let color = Color::from_char(notation.get_char(0));
        let kind = PieceKind::from_char(notation.get_char(1));
        match (kind, color) {
            (Some(kind), Some(color)) => Some(Piece::new(kind, color)),
            _ => None,
        }
    }

    /// Reads a piece from a two-character code that is known to be valid.
    pub fn new_from(notation: &str) -> (piece: Option<Piece>)
        requires
            Self::of_notation(notation@) is Some,
        ensures
            piece is Some,
            piece == Self::of_notation(notation@),
    {
        Self::from_notation(notation)
    }

    /// The two-character code of this piece.
    pub fn to_notation(&self) -> (text: String)
        ensures
            text@ == self.notation(),
    {
        let mut text = String::new();
        push_char(&mut text, self.color.char());
        push_char(&mut text, self.kind.char());
        text
    }
}

/// The board: eight ranks of eight squares, each empty or holding a piece.
/// Indexed by rank, then by file.
pub type GameBoard = [[Option<Piece>; 8]; 8];

/// What stands on a square of the board.
pub open spec fn piece_at(board: GameBoard, rank: int, file: int) -> Option<Piece> {
    board[rank][file]
}

/// Reading a piece's code gives the piece back, as it was before its first move.
pub proof fn lemma_piece_notation_round_trip(piece: Piece)
    ensures
        Piece::of_notation(piece.notation()) == Some(
            Piece { kind: piece.kind, color: piece.color, move_count: 0 },
        ),
{
}

/// Writing the code of a piece that was read from a text gives the text back.
pub proof fn lemma_piece_notation_unique(text: Seq<char>)
    requires
        Piece::of_notation(text) is Some,
    ensures
        Piece::of_notation(text).unwrap().notation() == text,
{
}

/// The kind of piece that starts on a file of either home rank.
pub open spec fn home_rank_kind(file: int) -> PieceKind {
    if file == 0 || file == 7 {
        PieceKind::Rook
    } else if file == 1 || file == 6 {
        PieceKind::Knight
    } else if file == 2 || file == 5 {
        PieceKind::Bishop
    } else if file == 3 {
        PieceKind::Queen
    } else {
        PieceKind::King
    }
}

/// What stands on a square when a game starts: Black's pieces on rank 0 and
/// Black's pawns on rank 1, White's pawns on rank 6 and White's pieces on
/// rank 7, nothing in between. No piece has moved.
pub open spec fn starting_piece(rank: int, file: int) -> Option<Piece> {
    if rank == 0 {
        Some(Piece { kind: home_rank_kind(file), color: Color::Black, move_count: 0 })
    } else if rank == 1 {
        Some(Piece { kind: PieceKind::Pawn, color: Color::Black, move_count: 0 })
    } else if rank == 6 {
        Some(Piece { kind: PieceKind::Pawn, color: Color::White, move_count: 0 })
    } else if rank == 7 {
        Some(Piece { kind: home_rank_kind(file), color: Color::White, move_count: 0 })
    } else {
        None
    }
}

/// Whether the board is the standard starting arrangement.
pub open spec fn is_starting_board(board: GameBoard) -> bool {
    forall|rank: int, file: int|
        on_board(rank, file) ==> #[trigger] piece_at(board, rank, file) == starting_piece(
            rank,
            file,
        )
}

/// The color of a square: squares whose rank and file have the same parity
/// are white, the others black.
pub open spec fn tile_color(rank: int, file: int) -> Color {
    if rank % 2 == file % 2 {
        Color::White
    } else {
        Color::Black
    }
}

/// The side to move after the given number of accepted moves: White moves
/// first, and the sides alternate.
pub open spec fn turn(move_count: nat) -> Color {
    if move_count % 2 == 0 {
        Color::White
    } else {
        Color::Black
    }
}

/// A piece after one more move.
pub open spec fn advanced(piece: Piece) -> Piece {
    Piece { kind: piece.kind, color: piece.color, move_count: (piece.move_count + 1) as usize }
}

/// Whether `after` is `before` but for the square `at`, which holds `piece`.
pub open spec fn placed(
    before: GameBoard,
    after: GameBoard,
    at: Position,
    piece: Option<Piece>,
) -> bool {
    forall|rank: int, file: int|
        on_board(rank, file) ==> #[trigger] piece_at(after, rank, file) == if rank == at.rank
            && file == at.file {
            piece
        } else {
            piece_at(before, rank, file)
        }
}

/// Whether `target` holds the king of the given color.
pub open spec fn holds_king(board: GameBoard, color: Color, target: Position) -> bool {
    &&& target.wf()
    &&& piece_at(board, target.rank as int, target.file as int) matches Some(piece)
    &&& piece.kind == PieceKind::King
    &&& piece.color == color
}

/// Whether the piece on `from`, if there is one, has the king of the given
/// color among its valid destinations.
pub open spec fn threatens_king(board: GameBoard, from: Position, color: Color) -> bool {
    &&& from.wf()
    &&& piece_at(board, from.rank as int, from.file as int) matches Some(piece)
    &&& exists|target: Position|
        #[trigger] piece.can_move_to(from, board, target) && holds_king(board, color, target)
}

/// Whether the king of the given color is among the valid destinations of
/// any piece on the board.
pub open spec fn in_check(board: GameBoard, color: Color) -> bool {
    exists|from: Position| #[trigger] threatens_king(board, from, color)
}

/// The mathematical content of a game.
pub struct GameView {
    /// The identifier under which a registry knows the game, if any.
    pub id: Option<Seq<char>>,
    /// The board as it stands.
    pub board: GameBoard,
    /// When the game was created, in milliseconds since the Unix epoch.
    pub created_at: i64,
    /// The accepted moves, oldest first, each as origin and destination.
    pub moves: Seq<(Position, Position)>,
}

impl GameView {
    /// The side to move.
    pub open spec fn current_turn(self) -> Color {
        turn(self.moves.len())
    }

    /// Why the move from `from` to `to` is rejected, or `None` if it is accepted.
    pub open spec fn move_error(self, from: Position, to: Position) -> Option<MoveError> {
        match piece_at(self.board, from.rank as int, from.file as int) {
            None => Some(MoveError::PieceNotFoundError),
            Some(piece) => if piece.color != self.current_turn() {
                Some(MoveError::OutOfTurnError)
            } else if !piece.can_move_to(from, self.board, to) {
                Some(MoveError::IllegalMoveError)
            } else {
                None
            },
        }
    }

    /// What an attempt at the move from `from` to `to` answers.
    pub open spec fn move_outcome(self, from: Position, to: Position) -> Result<(), MoveError> {
        match self.move_error(from, to) {
            Some(error) => Err(error),
            None => Ok(()),
        }
    }

    /// Whether `next` is this game after the piece on `from` has moved to
    /// `to`: the origin is empty, the destination holds the piece with one
    /// more move to its count (whatever stood there is captured), every other
    /// square is as before, and the move is the last of the history.
    pub open spec fn moved_to(self, next: GameView, from: Position, to: Position) -> bool {
        &&& next.id == self.id
        &&& next.created_at == self.created_at
        &&& next.moves == self.moves.push((from, to))
        &&& forall|rank: int, file: int|
            on_board(rank, file) ==> #[trigger] piece_at(next.board, rank, file) == (if rank
                == to.rank && file == to.file {
                Some(advanced(piece_at(self.board, from.rank as int, from.file as int).unwrap()))
            } else if rank == from.rank && file == from.file {
                None
            } else {
                piece_at(self.board, rank, file)
            })
    }

    /// Whether no piece on the board has made more moves than the game has seen.
    pub open spec fn counts_bounded(self) -> bool {
        forall|rank: int, file: int|
            on_board(rank, file) ==> (#[trigger] piece_at(self.board, rank, file) matches Some(
                piece,
            ) ==> piece.move_count <= self.moves.len())
    }
}

/// A game in progress: the board, and the moves that led to it.
///
/// A game changes only through `&mut self`, so whoever makes a move holds
/// the game to itself for the length of that move. No piece on the board
/// has made more moves than the game has seen.
#[derive(Debug)]
pub struct Game {
    /// ID of the game in the registry that holds it, if one does.
    id: Option<String>,
    /// 8x8 grid of pieces. Rank, then file.
    board: GameBoard,
    /// When the game was created, in milliseconds since the Unix epoch.
    created_at: i64,
    /// The list of moves in the game.
    moves: Vec<(Position, Position)>,
}

impl View for Game {
    type V = GameView;

    closed spec fn view(&self) -> GameView {
        GameView {
            id: match self.id {
                Some(id) => Some(id@),
                None => None,
            },
            board: self.board,
            created_at: self.created_at,
            moves: self.moves@,
        }
    }
}

/// The code of what stands on a square: the piece's two characters, or
/// nothing for an empty square.
pub open spec fn code_at(board: GameBoard, rank: int, file: int) -> Option<Seq<char>> {
    match piece_at(board, rank, file) {
        Some(piece) => Some(piece.notation()),
        None => None,
    }
}

/// The characters of an optional text.
pub open spec fn text_view(text: Option<String>) -> Option<Seq<char>> {
    match text {
        Some(code) => Some(code@),
        None => None,
    }
}

/// What a game shows to a client: the board in piece codes, and the state
/// derived from the history.
#[derive(Debug)]
pub struct GameSummary {
    /// The identifier under which a registry knows the game, if any.
    pub id: Option<String>,
    /// Eight ranks of eight cells: the code of the piece, or nothing.
    pub board: Vec<Vec<Option<String>>>,
    /// When the game was created, in milliseconds since the Unix epoch.
    pub created_at: i64,
    /// Whether White is in check.
    pub white_in_check: bool,
    /// Whether Black is in check.
    pub black_in_check: bool,
    /// The number of accepted moves.
    pub moves_count: usize,
    /// The side to move.
    pub current_move: Color,
}

impl GameSummary {
    /// Whether this is the summary of the given game.
    pub open spec fn describes(self, game: GameView) -> bool {
        &&& text_view(self.id) == game.id
        &&& self.board@.len() == 8
        &&& forall|rank: int| 0 <= rank < 8 ==> (#[trigger] self.board@[rank])@.len() == 8
        &&& forall|rank: int, file: int|
            on_board(rank, file) ==> text_view(#[trigger] self.board@[rank]@[file]) == code_at(
                game.board,
                rank,
                file,
            )
        &&& self.created_at == game.created_at
        &&& self.white_in_check == in_check(game.board, Color::White)
        &&& self.black_in_check == in_check(game.board, Color::Black)
        &&& self.moves_count == game.moves.len()
        &&& self.current_move == game.current_turn()
    }
}

/// The text of a square in a drawing of the board: the piece's code or two
/// dots, and three spaces.
pub open spec fn square_text(cell: Option<Piece>) -> Seq<char> {
    match cell {
        Some(piece) => piece.notation() + "   "@,
        None => "..   "@,
    }
}

/// The texts of the first `files` squares of a rank, one after the other.
pub open spec fn squares_text(board: GameBoard, rank: int, files: int) -> Seq<char>
    decreases files,
{
    if files <= 0 {
        Seq::empty()
    } else {
        squares_text(board, rank, files - 1) + square_text(piece_at(board, rank, files - 1))
    }
}

/// The line of a rank in a drawing of the board: the rank's digit, its
/// squares, and the digit again.
pub open spec fn rank_text(board: GameBoard, rank: int) -> Seq<char> {
    seq![' ', digit_of_rank(rank), ' ', ' '] + squares_text(board, rank, 8) + seq![
        ' ',
        digit_of_rank(rank),
        '\n',
    ]
}

/// The lines of the first `ranks` ranks, one after the other.
pub open spec fn ranks_text(board: GameBoard, ranks: int) -> Seq<char>
    decreases ranks,
{
    if ranks <= 0 {
        Seq::empty()
    } else {
        ranks_text(board, ranks - 1) + rank_text(board, ranks - 1)
    }
}

/// The line that labels the files in a drawing of the board.
pub open spec fn files_text() -> Seq<char> {
    "    A    B    C    D    E    F    G    H    \n"@
}

/// The drawing of a board: two line breaks, the file labels, the eight
/// ranks from Black's home rank down to White's, and the file labels again.
pub open spec fn board_text(board: GameBoard) -> Seq<char> {
    "\n\n"@ + files_text() + ranks_text(board, 8) + files_text()
}

/// The standard starting arrangement.
pub fn starting_board() -> (board: GameBoard)
    ensures
        is_starting_board(board),
{
    proof {
        reveal_strlit("BR");
        reveal_strlit("BN");
        reveal_strlit("BB");
        reveal_strlit("BQ");
        reveal_strlit("BK");
        reveal_strlit("BP");
        reveal_strlit("WR");
        reveal_strlit("WN");
        reveal_strlit("WB");
        reveal_strlit("WQ");
        reveal_strlit("WK");
        reveal_strlit("WP");
    }
    let bp = Piece::new_from("BP");
    let wp = Piece::new_from("WP");
    let board: GameBoard = [
        [
            Piece::new_from("BR"),
            Piece::new_from("BN"),
            Piece::new_from("BB"),
            Piece::new_from("BQ"),
            Piece::new_from("BK"),
            Piece::new_from("BB"),
            Piece::new_from("BN"),
            Piece::new_from("BR"),
        ],
        [bp; 8],
        [None; 8],
        [None; 8],
        [None; 8],
        [None; 8],
        [wp; 8],
        [
            Piece::new_from("WR"),
            Piece::new_from("WN"),
            Piece::new_from("WB"),
            Piece::new_from("WQ"),
            Piece::new_from("WK"),
            Piece::new_from("WB"),
            Piece::new_from("WN"),
            Piece::new_from("WR"),
        ],
    ];
    board
}

impl Game {
    #[verifier::type_invariant]
    spec fn counts_bounded(&self) -> bool {
        self@.counts_bounded()
    }

    /// A new game without an identifier, created now.
    pub fn new() -> (game: Game)
        ensures
            game@.id is None,
            is_starting_board(game@.board),
            game@.moves == Seq::<(Position, Position)>::empty(),
            game@.created_at >= 0,
            game@.counts_bounded(),
    {
        Game::new_with_id(None)
    }

    /// A new game with the given identifier, created now.
    pub fn new_with_id(id: Option<String>) -> (game: Game)
        ensures
            game@.id == text_view(id),
            is_starting_board(game@.board),
            game@.moves == Seq::<(Position, Position)>::empty(),
            game@.created_at >= 0,
            game@.counts_bounded(),
    {
        let created_at = now_millis();
        Game::new_at(id, created_at)
    }

    /// A new game with the given identifier and time of creation: the
    /// standard starting arrangement and an empty history.
    pub fn new_at(id: Option<String>, created_at: i64) -> (game: Game)
        ensures
            game@.id == text_view(id),
            is_starting_board(game@.board),
            game@.moves == Seq::<(Position, Position)>::empty(),
            game@.created_at == created_at,
            game@.counts_bounded(),
    {
        let board = starting_board();
        Game { id, board, created_at, moves: Vec::new() }
    }

    /// The color of a square of the board.
    pub fn get_tile_color(rank: usize, file: usize) -> (color: Color)
        ensures
            color == tile_color(rank as int, file as int),
    {
        if (rank % 2) == (file % 2) {
            Color::White
        } else {
            Color::Black
        }
    }

    /// What stands on a square of a board.
    pub fn get_piece(board: &GameBoard, position: &Position) -> (piece: Option<Piece>)
        requires
            position.wf(),
        ensures
            piece == piece_at(*board, position.rank as int, position.file as int),
    {
        board[position.rank][position.file]
    }

    /// What stands on a square of this game's board.
    pub fn get_piece_by_position(&self, position: &Position) -> (piece: Option<Piece>)
        requires
            position.wf(),
        ensures
            piece == piece_at(self@.board, position.rank as int, position.file as int),
    {
        self.board[position.rank][position.file]
    }

    /// The board as it stands.
    pub fn board(&self) -> (board: &GameBoard)
        ensures
            *board == self@.board,
            self@.counts_bounded(),
    {
        proof {
            use_type_invariant(self);
        }
        &self.board
    }

    /// The identifier under which a registry knows the game, if any.
    pub fn id(&self) -> (id: &Option<String>)
        ensures
            self@.id == text_view(*id),
    {
        &self.id
    }

    /// When the game was created, in milliseconds since the Unix epoch.
    pub fn created_at(&self) -> (millis: i64)
        ensures
            millis == self@.created_at,
    {
        self.created_at
    }

    /// The accepted moves, oldest first.
    pub fn moves(&self) -> (moves: &Vec<(Position, Position)>)
        ensures
            moves@ == self@.moves,
    {
        &self.moves
    }

    /// The number of accepted moves.
    pub fn get_move_count(&self) -> (count: usize)
        ensures
            count == self@.moves.len(),
    {
        self.moves.len()
    }

    /// The side to move: White after an even number of moves, else Black.
    pub fn get_current_move(&self) -> (color: Color)
        ensures
            color == self@.current_turn(),
    {
        if self.get_move_count() % 2 == 0 {
            Color::White
        } else {
            Color::Black
        }
    }

    /// The codes of the pieces on one rank of the board.
    fn rank_codes(&self, rank: usize) -> (codes: Vec<Option<String>>)
        requires
            rank < 8,
        ensures
            codes@.len() == 8,
            forall|file: int|
                0 <= file < 8 ==> text_view(#[trigger] codes@[file]) == code_at(
                    self@.board,
                    rank as int,
                    file,
                ),
    {
        let mut codes: Vec<Option<String>> = Vec::new();
        let mut file: usize = 0;
        while file < 8
            invariant
                rank < 8,
                file <= 8,
                codes@.len() == file,
                forall|done: int|
                    0 <= done < file ==> text_view(#[trigger] codes@[done]) == code_at(
                        self@.board,
                        rank as int,
                        done,
                    ),
            decreases 8 - file,
        {
            let code = match self.board[rank][file] {
                Some(piece) => Some(piece.to_notation()),
                None => None,
            };
            codes.push(code);
            file += 1;
        }
        codes
    }

    /// What the game shows to a client: the board in piece codes, the time
    /// of creation, whether either side is in check, the number of moves,
    /// and the side to move.
    pub fn summary(&self) -> (summary: GameSummary)
        ensures
            summary.describes(self@),
    {
        let mut board: Vec<Vec<Option<String>>> = Vec::new();
        let mut rank: usize = 0;
        while rank < 8
            invariant
                rank <= 8,
                board@.len() == rank,
                forall|done: int| 0 <= done < rank ==> (#[trigger] board@[done])@.len() == 8,
                forall|done: int, file: int|
                    0 <= done < rank && 0 <= file < 8 ==> text_view(
                        #[trigger] board@[done]@[file],
                    ) == code_at(self@.board, done, file),
            decreases 8 - rank,
        {
            let codes = self.rank_codes(rank);
            board.push(codes);
            rank += 1;
        }
        GameSummary {
            id: self.id.clone(),
            board,
            created_at: self.created_at,
            white_in_check: self.is_player_in_check(Color::White),
            black_in_check: self.is_player_in_check(Color::Black),
            moves_count: self.get_move_count(),
            current_move: self.get_current_move(),
        }
    }

    /// Appends the text of one square to a drawing.
    fn draw_square(&self, text: &mut String, rank: usize, file: usize)
        requires
            rank < 8,
            file < 8,
        ensures
            final(text)@ == old(text)@ + square_text(
                piece_at(self@.board, rank as int, file as int),
            ),
    {
        match self.board[rank][file] {
            Some(piece) => {
                push_char(text, piece.color.char());
                push_char(text, piece.kind.char());
                text.append("   ");
            },
            None => {
                text.append("..   ");
            },
        }
    }

    /// Appends the line of one rank to a drawing.
    fn draw_rank(&self, text: &mut String, rank: usize)
        requires
            rank < 8,
        ensures
            final(text)@ == old(text)@ + rank_text(self@.board, rank as int),
    {
        let digits: [char; 8] = ['8', '7', '6', '5', '4', '3', '2', '1'];
        let digit = digits[rank];
        push_char(text, ' ');
        push_char(text, digit);
        push_char(text, ' ');
        push_char(text, ' ');
        let ghost start = text@;
        let mut file: usize = 0;
        while file < 8
            invariant
                rank < 8,
                file <= 8,
                text@ == start + squares_text(self@.board, rank as int, file as int),
            decreases 8 - file,
        {
            self.draw_square(text, rank, file);
            file += 1;
        }
        let ghost squares = squares_text(self@.board, rank as int, 8);
        push_char(text, ' ');
        push_char(text, digit);
        push_char(text, '\n');
        assert(text@ =~= old(text)@ + (seq![' ', digit, ' ', ' '] + squares + seq![
            ' ',
            digit,
            '\n',
        ]));
    }

    /// Draws the board as text, with the files labelled above and below and
    /// the ranks labelled on both sides.
    pub fn to_text(&self) -> (text: String)
        ensures
            text@ == board_text(self@.board),
    {
        let mut text = String::from_str("\n\n");
        text.append("    A    B    C    D    E    F    G    H    \n");
        let ghost head = text@;
        let mut rank: usize = 0;
        while rank < 8
            invariant
                rank <= 8,
                text@ == head + ranks_text(self@.board, rank as int),
            decreases 8 - rank,
        {
            self.draw_rank(&mut text, rank);
            rank += 1;
        }
        text.append("    A    B    C    D    E    F    G    H    \n");
        text
    }

    /// Puts a piece on a square, or clears the square. This sets up a
    /// position by hand; it is no move and leaves the history alone. The
    /// piece may not claim more moves than the game has seen.
    pub fn set_piece(&mut self, position: &Position, piece: Option<Piece>)
        requires
            position.wf(),
            piece matches Some(given) ==> given.move_count <= old(self)@.moves.len(),
        ensures
            final(self)@.id == old(self)@.id,
            final(self)@.created_at == old(self)@.created_at,
            final(self)@.moves == old(self)@.moves,
            placed(old(self)@.board, final(self)@.board, *position, piece),
    {
        proof {
            use_type_invariant(&*self);
        }
        let ghost before = self@;
        let mut board = self.board;
        board[position.rank][position.file] = piece;
        assert forall|rank: int, file: int| on_board(rank, file) implies (#[trigger] piece_at(
            board,
            rank,
            file,
        ) matches Some(found) ==> found.move_count <= before.moves.len()) by {
            assert(piece_at(before.board, rank, file) matches Some(found) ==> found.move_count
                <= before.moves.len());
        }
        self.board = board;
    }

    /// Attempts the move of the piece on `position` to `new_position`.
    ///
    /// The move is rejected if the origin is empty, if the piece there
    /// belongs to the side that is not to move, or if the destination is not
    /// among the piece's valid destinations, in this order; the game is then
    /// unchanged. Otherwise the piece moves, capturing whatever stood on the
    /// destination, its move count grows by one, and the move is recorded.
    /// A move that leaves the mover's own king attacked is accepted like any
    /// other.
    pub fn move_piece_at_position(
        &mut self,
        position: &Position,
        new_position: &Position,
    ) -> (done: Result<(), MoveError>)
        requires
            position.wf(),
            new_position.wf(),
        ensures
            done == old(self)@.move_outcome(*position, *new_position),
            done is Err ==> final(self)@ == old(self)@,
            done is Ok ==> old(self)@.moved_to(final(self)@, *position, *new_position),
            final(self)@.counts_bounded(),
    {
        proof {
            use_type_invariant(&*self);
        }
        let mut piece = match self.get_piece_by_position(position) {
            None => {
                return Err(MoveError::PieceNotFoundError);
            },
            Some(piece) => piece,
        };
        if piece.color != self.get_current_move() {
            return Err(MoveError::OutOfTurnError);
        }
        let valid_moves = piece.get_valid_moves(*position, self.board);
        if !valid_moves.contains(new_position) {
            return Err(MoveError::IllegalMoveError);
        }
        // The history and the board change together, so the game is taken
        // apart and put together again; an empty game stands in meanwhile.
        let mut taken = Game { id: None, board: [[None; 8]; 8], created_at: 0, moves: Vec::new() };
        std::mem::swap(self, &mut taken);
        let Game { id, mut board, created_at, mut moves } = taken;
        let ghost before = old(self)@;
        moves.push((*position, *new_position));
        // No piece has moved more often than the history is long, and the
        // history has just grown: the count cannot overflow.
        let count = moves.len();
        assert(piece.move_count < count) by {
            assert(piece_at(before.board, position.rank as int, position.file as int) == Some(
                piece,
            ));
        }
        piece.move_count += 1;
        board[position.rank][position.file] = None;
        board[new_position.rank][new_position.file] = Some(piece);
        assert forall|rank: int, file: int| on_board(rank, file) implies (#[trigger] piece_at(
            board,
            rank,
            file,
        ) matches Some(found) ==> found.move_count <= moves@.len()) by {
            assert(piece_at(before.board, rank, file) matches Some(found) ==> found.move_count
                <= before.moves.len());
        }
        *self = Game { id, board, created_at, moves };
        Ok(())
    }

    /// Whether the piece on `position`, if there is one, has the king of the
    /// given color among its valid destinations.
    pub fn threatens_king(&self, position: &Position, color: Color) -> (threat: bool)
        requires
            position.wf(),
        ensures
            threat == threatens_king(self@.board, *position, color),
    {
        let piece = match self.get_piece_by_position(position) {
            None => {
                return false;
            },
            Some(piece) => piece,
        };
        let moves = piece.get_valid_moves(*position, self.board).to_vec();
        let mut i: usize = 0;
        while i < moves.len()
            invariant
                i <= moves@.len(),
                position.wf(),
                piece_at(self@.board, position.rank as int, position.file as int) == Some(piece),
                moves@.to_set() == piece.valid_destinations(*position, self@.board),
                forall|j: int| 0 <= j < i ==> !holds_king(self@.board, color, #[trigger] moves@[j]),
            decreases moves@.len() - i,
        {
            let target = moves[i];
            assert(moves@.to_set().contains(target));
            assert(piece.can_move_to(*position, self@.board, target));
            if let Some(found) = self.get_piece_by_position(&target) {
                if found.color == color && found.kind == PieceKind::King {
                    return true;
                }
            }
            i += 1;
        }
        proof {
            assert forall|target: Position|
                piece.can_move_to(*position, self@.board, target) implies !holds_king(
                self@.board,
                color,
                target,
            ) by {
                assert(moves@.to_set().contains(target));
                let j = choose|j: int| 0 <= j < moves@.len() && moves@[j] == target;
                assert(!holds_king(self@.board, color, moves@[j]));
            }
        }
        false
    }

    /// Whether the given side is in check: whether its king is among the
    /// valid destinations of any piece on the board.
    pub fn is_player_in_check(&self, color: Color) -> (check: bool)
        ensures
            check == in_check(self@.board, color),
    {
        let mut rank: usize = 0;
        while rank < 8
            invariant
                rank <= 8,
                forall|from: Position|
                    from.rank < rank ==> !#[trigger] threatens_king(self@.board, from, color),
            decreases 8 - rank,
        {
            let mut file: usize = 0;
            while file < 8
                invariant
                    rank < 8,
                    file <= 8,
                    forall|from: Position|
                        from.rank < rank ==> !#[trigger] threatens_king(self@.board, from, color),
                    forall|from: Position|
                        from.rank == rank && from.file < file ==> !#[trigger] threatens_king(
                            self@.board,
                            from,
                            color,
                        ),
                decreases 8 - file,
            {
                let position = Position { rank, file };
                if self.threatens_king(&position, color) {
                    return true;
                }
                file += 1;
            }
            rank += 1;
        }
        false
    }
}

impl Default for Game {
    /// A new game without an identifier, created now.
    fn default() -> (game: Game)
        ensures
            game@.id is None,
            is_starting_board(game@.board),
            game@.moves == Seq::<(Position, Position)>::empty(),
            game@.created_at >= 0,
    {
        Game::new()
    }
}

/// At the start, ranks 0, 1, 6 and 7 are full and the others empty, the
/// pawns fill exactly ranks 1 and 6, and no piece has moved.
pub proof fn lemma_starting_board_layout(board: GameBoard, rank: int, file: int)
    requires
        is_starting_board(board),
        on_board(rank, file),
    ensures
        piece_at(board, rank, file) is Some <==> (rank == 0 || rank == 1 || rank == 6 || rank
            == 7),
        piece_at(board, rank, file) matches Some(piece) ==> piece.move_count == 0 && (piece.kind
            == PieceKind::Pawn <==> (rank == 1 || rank == 6)),
{
}

/// At the start, each queen stands on a square of her own color, and there
/// is one queen of each color.
pub proof fn lemma_queens_start_on_own_color(board: GameBoard, rank: int, file: int)
    requires
        is_starting_board(board),
        on_board(rank, file),
    ensures
        piece_at(board, rank, file) matches Some(piece) ==> (piece.kind == PieceKind::Queen
            ==> tile_color(rank, file) == piece.color),
        (piece_at(board, rank, file) matches Some(piece) && piece.kind == PieceKind::Queen) <==> (
        file == 3 && (rank == 0 || rank == 7)),
{
}

/// Whether `states` are the successive states of a game in which every move
/// of `steps` was accepted in turn.
pub open spec fn played(states: Seq<GameView>, steps: Seq<(Position, Position)>) -> bool {
    &&& states.len() == steps.len() + 1
    &&& forall|i: int|
        0 <= i < steps.len() ==> (#[trigger] states[i]).move_error(steps[i].0, steps[i].1) is None
            && states[i].moved_to(states[i + 1], steps[i].0, steps[i].1)
}

/// After any number of accepted moves from a game without history, White is
/// to move exactly if that number is even.
pub proof fn lemma_turns_alternate(states: Seq<GameView>, steps: Seq<(Position, Position)>)
    requires
        played(states, steps),
        states[0].moves.len() == 0,
    ensures
        states.last().moves.len() == steps.len(),
        states.last().current_turn() == Color::White <==> steps.len() % 2 == 0,
    decreases steps.len(),
{
    if steps.len() > 0 {
        let shorter = steps.drop_last();
        let earlier = states.drop_last();
        assert(played(earlier, shorter));
        lemma_turns_alternate(earlier, shorter);
    }
}

/// A move of a piece of the side that is not to move is refused as out of
/// turn, whatever its destination.
pub proof fn lemma_out_of_turn_rejected(game: GameView, from: Position, to: Position)
    requires
        piece_at(game.board, from.rank as int, from.file as int) matches Some(piece)
            && piece.color != game.current_turn(),
    ensures
        game.move_error(from, to) == Some(MoveError::OutOfTurnError),
{
}

/// A side whose king is a valid destination of a piece on the board is in
/// check. So an enemy queen placed where she attacks the king gives check.
pub proof fn lemma_attacked_king_is_in_check(
    board: GameBoard,
    color: Color,
    attacker: Position,
    king: Position,
)
    requires
        attacker.wf(),
        piece_at(board, attacker.rank as int, attacker.file as int) matches Some(piece)
            && piece.can_move_to(attacker, board, king),
        holds_king(board, color, king),
    ensures
        in_check(board, color),
{
    assert(threatens_king(board, attacker, color));
}

} // verus!
