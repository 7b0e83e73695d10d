//! Squares of the board and the destinations that a piece can reach.
use vstd::prelude::*;
use vstd::string::*;

use crate::error::ParseError;
use crate::game::{piece_at, Color, GameBoard, Piece, PieceKind};
use crate::position_set::PositionSet;
use crate::text::push_char;

verus! {

/// A square of the board. Rank 0 is Black's home rank, rank 7 is White's;
/// file 0 is the file `A`.
#[derive(PartialEq, Eq, Hash, Clone, Copy, Debug, Structural)]
pub struct Position {
    /// The rank (row) of the position on the chess board. Starting from 0.
    pub rank: usize,
    /// The file (column) of the position on the chess board. Starting from 0.
    pub file: usize,
}

/// Whether the coordinates name a square of the board.
pub open spec fn on_board(rank: int, file: int) -> bool {
    0 <= rank < 8 && 0 <= file < 8
}

/// The file that a letter names: `A` to `H`, in either case, for 0 to 7.
pub open spec fn file_of_letter(letter: char) -> Option<usize> {
    if 'A' <= letter <= 'H' {
        Some((letter as int - 'A' as int) as usize)
    } else if 'a' <= letter <= 'h' {
        Some((letter as int - 'a' as int) as usize)
    } else {
        None
    }
}

/// The rank that a digit names: `1` to `8` for 7 down to 0.
pub open spec fn rank_of_digit(digit: char) -> Option<usize> {
    if '1' <= digit <= '8' {
        Some((8 - (digit as int - '0' as int)) as usize)
    } else {
        None
    }
}

/// The upper-case letter of a file.
pub open spec fn letter_of_file(file: int) -> char {
    ('A' as int + file) as char
}

/// The digit of a rank.
pub open spec fn digit_of_rank(rank: int) -> char {
    ('0' as int + (8 - rank)) as char
}

impl Position {
    /// Whether the position lies on the board. Every operation of the engine
    /// expects positions that do.
    pub open spec fn wf(self) -> bool {
        self.rank < 8 && self.file < 8
    }

    /// The algebraic notation of the position: file letter, then rank digit.
    pub open spec fn notation(self) -> Seq<char> {
        seq![letter_of_file(self.file as int), digit_of_rank(self.rank as int)]
    }

    /// What reading a text as algebraic notation gives.
    pub open spec fn parse(text: Seq<char>) -> Result<Position, ParseError> {
        if text.len() != 2 {
            Err(ParseError::Length)
        } else if file_of_letter(text[0]) is None {
            Err(ParseError::File)
        } else if rank_of_digit(text[1]) is None {
            Err(ParseError::Rank)
        } else {
            Ok(
                Position {
                    rank: rank_of_digit(text[1]).unwrap(),
                    file: file_of_letter(text[0]).unwrap(),
                },
            )
        }
    }

    /// The position displaced by the given signed offsets, if it is on the board.
    pub open spec fn shifted(self, rank_delta: int, file_delta: int) -> Option<Position> {
        if on_board(self.rank + rank_delta, self.file + file_delta) {
            Some(
                Position {
                    rank: (self.rank + rank_delta) as usize,
                    file: (self.file + file_delta) as usize,
                },
            )
        } else {
            None
        }
    }

    /// Whether the coordinates name a square of the board.
    pub fn validate(rank: usize, file: usize) -> (ok: bool)
        ensures
            ok == (rank < 8 && file < 8),
    {
        rank < 8 && file < 8
    }

    /// The position with the given coordinates, which must lie on the board.
    pub fn new(rank: usize, file: usize) -> (position: Position)
        requires
            rank < 8,
            file < 8,
        ensures
            position == (Position { rank, file }),
            position.wf(),
    {
        Position { rank, file }
    }

    /// Reads a position from two-character algebraic notation such as `E4`.
    pub fn from_notation(text: &str) -> (parsed: Result<Position, ParseError>)
        ensures
            parsed == Self::parse(text@),
            parsed matches Ok(position) ==> position.wf(),
    {
        if text.unicode_len() != 2 {
            return Err(ParseError::Length);
        }
        let letter = text.get_char(0);
        let digit = text.get_char(1);
        let file: usize = if 'A' <= letter && letter <= 'H' {
            (letter as u32 - 'A' as u32) as usize
        } else if 'a' <= letter && letter <= 'h' {
            (letter as u32 - 'a' as u32) as usize
        } else {
            return Err(ParseError::File);
        };
        if !('1' <= digit && digit <= '8') {
            return Err(ParseError::Rank);
        }
        let rank: usize = (8 - (digit as u32 - '0' as u32)) as usize;
        Ok(Position { rank, file })
    }

    /// Writes the position in algebraic notation, with an upper-case file letter.
    pub fn to_notation(&self) -> (text: String)
        requires
            self.wf(),
        ensures
            text@ == self.notation(),
    {
        let letters: [char; 8] = ['A', 'B', 'C', 'D', 'E', 'F', 'G', 'H'];
        let digits: [char; 8] = ['8', '7', '6', '5', '4', '3', '2', '1'];
        let mut text = String::new();
        push_char(&mut text, letters[self.file]);
        push_char(&mut text, digits[self.rank]);
        text
    }

    /// The position displaced by signed offsets, or `None` if that leaves the board.
    pub fn translate(&self, rank_delta: isize, file_delta: isize) -> (moved: Option<Position>)
        requires
            self.wf(),
        ensures
            moved == self.shifted(rank_delta as int, file_delta as int),
            moved matches Some(position) ==> position.wf(),
    {
        if rank_delta <= -8 || rank_delta >= 8 || file_delta <= -8 || file_delta >= 8 {
            return None;
        }
        let rank: isize = self.rank as isize + rank_delta;
        let file: isize = self.file as isize + file_delta;
        if rank < 0 || rank >= 8 || file < 0 || file >= 8 {
            return None;
        }
        Some(Position { rank: rank as usize, file: file as usize })
    }
}

impl std::str::FromStr for Position {
    type Err = ParseError;

    /// Reads a position from algebraic notation, as `from_notation` does.
    fn from_str(text: &str) -> (parsed: Result<Position, ParseError>)
        ensures
            parsed == Position::parse(text@),
    {
        Position::from_notation(text)
    }
}

/// Reading the notation of a position on the board gives the position back.
pub proof fn lemma_notation_round_trip(position: Position)
    requires
        position.wf(),
    ensures
        Position::parse(position.notation()) == Ok::<Position, ParseError>(position),
{
}

/// The absolute value of an integer.
pub open spec fn abs(x: int) -> int {
    if x < 0 {
        -x
    } else {
        x
    }
}

/// A coordinate moved `steps` squares in the direction of `delta`'s sign.
pub open spec fn offset(base: int, delta: int, steps: int) -> int {
    if delta > 0 {
        base + steps
    } else if delta < 0 {
        base - steps
    } else {
        base
    }
}

/// The number of king steps between two squares.
pub open spec fn distance(from: Position, to: Position) -> int {
    let dr = abs(to.rank - from.rank);
    let df = abs(to.file - from.file);
    if dr >= df {
        dr
    } else {
        df
    }
}

/// Whether the square that lies `steps` steps from `from` towards `to` is empty.
pub open spec fn path_square_empty(
    board: GameBoard,
    from: Position,
    to: Position,
    steps: int,
) -> bool {
    piece_at(
        board,
        offset(from.rank as int, to.rank - from.rank, steps),
        offset(from.file as int, to.file - from.file, steps),
    ) is None
}

/// Whether every square strictly between `from` and `to` is empty. It is meant
/// for two squares on a common rank, file or diagonal.
pub open spec fn path_clear(board: GameBoard, from: Position, to: Position) -> bool {
    forall|steps: int|
        0 < steps < distance(from, to) ==> #[trigger] path_square_empty(board, from, to, steps)
}

/// Whether a piece of the given color may come to stand on `to`: the square is
/// on the board, and it is empty or holds a piece of the other color.
pub open spec fn can_land(board: GameBoard, color: Color, to: Position) -> bool {
    to.wf() && match piece_at(board, to.rank as int, to.file as int) {
        None => true,
        Some(piece) => piece.color != color,
    }
}

/// The king's geometry: one of the eight adjacent squares.
pub open spec fn king_reach(from: Position, to: Position) -> bool {
    from != to && abs(to.rank - from.rank) <= 1 && abs(to.file - from.file) <= 1
}

/// The knight's geometry: two squares one way and one square the other.
pub open spec fn knight_reach(from: Position, to: Position) -> bool {
    ||| abs(to.rank - from.rank) == 2 && abs(to.file - from.file) == 1
    ||| abs(to.rank - from.rank) == 1 && abs(to.file - from.file) == 2
}

/// A slide along the rank of `from` over empty squares.
pub open spec fn sideways_reach(board: GameBoard, from: Position, to: Position) -> bool {
    to.rank == from.rank && to.file != from.file && path_clear(board, from, to)
}

/// A slide along the file of `from` over empty squares.
pub open spec fn up_and_down_reach(board: GameBoard, from: Position, to: Position) -> bool {
    to.file == from.file && to.rank != from.rank && path_clear(board, from, to)
}

/// A slide along a diagonal through `from` over empty squares.
pub open spec fn diagonal_reach(board: GameBoard, from: Position, to: Position) -> bool {
    from != to && abs(to.rank - from.rank) == abs(to.file - from.file) && path_clear(
        board,
        from,
        to,
    )
}

/// The rank direction in which pawns of a color advance: White moves towards
/// rank 0, Black towards rank 7.
pub open spec fn forward(color: Color) -> int {
    match color {
        Color::White => -1,
        Color::Black => 1,
    }
}

/// The pawn's geometry: one square forward, or two for a pawn that has not moved.
pub open spec fn pawn_reach(piece: Piece, from: Position, to: Position) -> bool {
    to.file == from.file && (to.rank - from.rank == forward(piece.color) || (piece.move_count == 0
        && to.rank - from.rank == 2 * forward(piece.color)))
}

impl Piece {
    /// Whether the geometry of this piece, and the pieces in its way, let it
    /// travel from `from` to `to`.
    pub open spec fn reaches(self, from: Position, board: GameBoard, to: Position) -> bool {
        match self.kind {
            PieceKind::King => king_reach(from, to),
            PieceKind::Knight => knight_reach(from, to),
            PieceKind::Rook => sideways_reach(board, from, to) || up_and_down_reach(
                board,
                from,
                to,
            ),
            PieceKind::Bishop => diagonal_reach(board, from, to),
            PieceKind::Queen => sideways_reach(board, from, to) || up_and_down_reach(
                board,
                from,
                to,
            ) || diagonal_reach(board, from, to),
            PieceKind::Pawn => pawn_reach(self, from, to),
        }
    }

    /// Whether `to` is a valid destination of this piece standing on `from`.
    /// Whether the move would leave the mover's own king attacked is not
    /// considered.
    pub open spec fn can_move_to(self, from: Position, board: GameBoard, to: Position) -> bool {
        can_land(board, self.color, to) && self.reaches(from, board, to)
    }

    /// The valid destinations of this piece standing on `from`.
    pub open spec fn valid_destinations(self, from: Position, board: GameBoard) -> Set<Position> {
        Set::new(|to: Position| self.can_move_to(from, board, to))
    }
}

/// Whether `to` is one king's step from `from`, by the list of the eight steps.
spec fn is_king_step(from: Position, to: Position) -> bool {
    ||| from.shifted(-1, -1) == Some(to)
    ||| from.shifted(-1, 0) == Some(to)
    ||| from.shifted(-1, 1) == Some(to)
    ||| from.shifted(0, -1) == Some(to)
    ||| from.shifted(0, 1) == Some(to)
    ||| from.shifted(1, -1) == Some(to)
    ||| from.shifted(1, 0) == Some(to)
    ||| from.shifted(1, 1) == Some(to)
}

/// Whether `to` is one knight's jump from `from`, by the list of the eight jumps.
spec fn is_knight_jump(from: Position, to: Position) -> bool {
    ||| from.shifted(-2, -1) == Some(to)
    ||| from.shifted(-2, 1) == Some(to)
    ||| from.shifted(2, -1) == Some(to)
    ||| from.shifted(2, 1) == Some(to)
    ||| from.shifted(-1, -2) == Some(to)
    ||| from.shifted(-1, 2) == Some(to)
    ||| from.shifted(1, -2) == Some(to)
    ||| from.shifted(1, 2) == Some(to)
}

/// Whether `to` is the pawn's step forward from `from` or, for a pawn that
/// has not moved, its double step.
spec fn is_pawn_step(pawn: Piece, from: Position, to: Position) -> bool {
    ||| from.shifted(forward(pawn.color), 0) == Some(to)
    ||| pawn.move_count == 0 && from.shifted(2 * forward(pawn.color), 0) == Some(to)
}

/// The king's geometry names exactly the eight steps to an adjacent square.
proof fn lemma_king_steps(from: Position, to: Position)
    requires
        from.wf(),
    ensures
        (to.wf() && king_reach(from, to)) <==> is_king_step(from, to),
{
}

/// The pawn's geometry names exactly the step forward and, for a pawn that
/// has not moved, the double step.
proof fn lemma_pawn_steps(pawn: Piece, from: Position, to: Position)
    requires
        from.wf(),
    ensures
        (to.wf() && pawn_reach(pawn, from, to)) <==> is_pawn_step(pawn, from, to),
{
}

/// The knight's geometry names exactly the eight L-shaped jumps.
proof fn lemma_knight_jumps(from: Position, to: Position)
    requires
        from.wf(),
    ensures
        (to.wf() && knight_reach(from, to)) <==> is_knight_jump(from, to),
{
}

/// What a sliding piece of the given color finds on a square: whether the
/// slide ends there, and the square if the piece may land on it. An empty
/// square lets the slide go on; an enemy piece ends it and can be captured;
/// a piece of the same color ends it and cannot.
pub open spec fn probe(board: GameBoard, color: Color, position: Position) -> (
    bool,
    Option<Position>,
) {
    match piece_at(board, position.rank as int, position.file as int) {
        None => (false, Some(position)),
        Some(piece) => if piece.color != color {
            (true, Some(position))
        } else {
            (true, None)
        },
    }
}

/// The squares that a slide from `from` in one direction ends on. The
/// direction is given by the signs of `rank_step` and `file_step`.
pub open spec fn ray_destinations(
    board: GameBoard,
    color: Color,
    from: Position,
    rank_step: int,
    file_step: int,
) -> Set<Position> {
    Set::new(
        |to: Position|
            {
                &&& can_land(board, color, to)
                &&& distance(from, to) > 0
                &&& to.rank == offset(from.rank as int, rank_step, distance(from, to))
                &&& to.file == offset(from.file as int, file_step, distance(from, to))
                &&& path_clear(board, from, to)
            },
    )
}

impl Piece {
    /// Looks at one square for a sliding piece of the given color. The first
    /// component says whether the slide ends here, the second gives the square
    /// if the piece may land on it.
    pub fn explore_pos_and_break(
        position: Position,
        color: Color,
        board: &GameBoard,
    ) -> (found: (bool, Option<Position>))
        requires
            position.wf(),
        ensures
            found == probe(*board, color, position),
    {
        match board[position.rank][position.file] {
            None => (false, Some(position)),
            Some(piece) => if piece.color != color {
                (true, Some(position))
            } else {
                (true, None)
            },
        }
    }

    /// Slides from `from` in the direction `(rank_step, file_step)`: every
    /// empty square is a destination; the first occupied square ends the
    /// slide, and is a destination if it holds an enemy piece.
    #[verifier::rlimit(30)]
    pub fn explore_ray(
        from: Position,
        rank_step: isize,
        file_step: isize,
        color: Color,
        board: &GameBoard,
    ) -> (moves: PositionSet)
        requires
            from.wf(),
            -1 <= rank_step <= 1,
            -1 <= file_step <= 1,
            rank_step != 0 || file_step != 0,
        ensures
            moves@ == ray_destinations(*board, color, from, rank_step as int, file_step as int),
    {
        let mut moves = PositionSet::new();
        let mut current = from;
        let mut steps: usize = 0;
        let ghost wanted = ray_destinations(
            *board,
            color,
            from,
            rank_step as int,
            file_step as int,
        );
        loop
            invariant_except_break
                forall|to: Position|
                    #![trigger moves@.contains(to)]
                    #![trigger wanted.contains(to)]
                    moves@.contains(to) <==> (wanted.contains(to) && distance(from, to) <= steps),
            invariant
                from.wf(),
                current.wf(),
                -1 <= rank_step <= 1,
                -1 <= file_step <= 1,
                rank_step != 0 || file_step != 0,
                0 <= steps < 8,
                current.rank == offset(from.rank as int, rank_step as int, steps as int),
                current.file == offset(from.file as int, file_step as int, steps as int),
                wanted == ray_destinations(
                    *board,
                    color,
                    from,
                    rank_step as int,
                    file_step as int,
                ),
                forall|k: int|
                    0 < k <= steps ==> piece_at(
                        *board,
                        #[trigger] offset(from.rank as int, rank_step as int, k),
                        offset(from.file as int, file_step as int, k),
                    ) is None,
            ensures
                moves@ == wanted,
            decreases 8 - steps,
        {
            match current.translate(rank_step, file_step) {
                None => {
                    // The next square is off the board, and so is every
                    // square behind it.
                    assert(moves@ =~= wanted);
                    break ;
                },
                Some(next) => {
                    let (stop, landing) = Self::explore_pos_and_break(next, color, board);
                    let ghost before = moves@;
                    assert(distance(from, next) == steps + 1);
                    if let Some(square) = landing {
                        moves.insert(square);
                        // The squares on the way to `next` were all empty.
                        assert forall|k: int|
                            0 < k < steps + 1 implies #[trigger] path_square_empty(
                            *board,
                            from,
                            next,
                            k,
                        ) by {
                            assert(piece_at(
                                *board,
                                offset(from.rank as int, rank_step as int, k),
                                offset(from.file as int, file_step as int, k),
                            ) is None);
                        }
                    }
                    // `next` is the one square of the ray at its distance.
                    assert forall|to: Position|
                        #![trigger moves@.contains(to)]
                        #![trigger wanted.contains(to)]
                        moves@.contains(to) <==> (wanted.contains(to) && distance(from, to)
                            <= steps + 1) by {
                        if wanted.contains(to) && distance(from, to) == steps + 1 {
                            assert(to == next);
                        }
                        if moves@.contains(to) && !before.contains(to) {
                            assert(to == next);
                        }
                    }
                    if stop {
                        // A square behind `next` has the piece on `next`
                        // in its way.
                        assert forall|to: Position| wanted.contains(to) implies distance(from, to)
                            <= steps + 1 by {
                            if distance(from, to) > steps + 1 {
                                assert(path_square_empty(*board, from, to, steps + 1));
                            }
                        }
                        assert(moves@ =~= wanted);
                        break ;
                    }
                    current = next;
                    steps += 1;
                },
            }
        }
        moves
    }

    /// Slides along the rank of `position`, towards higher files if
    /// `file_step` is 1 and towards lower files if it is -1.
    pub fn explore_rank(
        position: Position,
        file_step: isize,
        color: Color,
        board: &GameBoard,
    ) -> (moves: PositionSet)
        requires
            position.wf(),
            file_step == 1 || file_step == -1,
        ensures
            moves@ == ray_destinations(*board, color, position, 0, file_step as int),
    {
        Self::explore_ray(position, 0, file_step, color, board)
    }

    /// Slides along the file of `position`, towards higher ranks if
    /// `rank_step` is 1 and towards lower ranks if it is -1.
    pub fn explore_file(
        position: Position,
        rank_step: isize,
        color: Color,
        board: &GameBoard,
    ) -> (moves: PositionSet)
        requires
            position.wf(),
            rank_step == 1 || rank_step == -1,
        ensures
            moves@ == ray_destinations(*board, color, position, rank_step as int, 0),
    {
        Self::explore_ray(position, rank_step, 0, color, board)
    }

    /// The destinations along the rank of the piece, in both directions.
    pub fn look_sideways(
        &self,
        current_position: Position,
        board: &GameBoard,
    ) -> (moves: PositionSet)
        requires
            current_position.wf(),
        ensures
            moves@ == Set::new(
                |to: Position|
                    can_land(*board, self.color, to) && sideways_reach(
                        *board,
                        current_position,
                        to,
                    ),
            ),
    {
        let mut moves = Self::explore_rank(current_position, -1, self.color, board);
        let right = Self::explore_rank(current_position, 1, self.color, board);
        moves.extend(&right);
        assert(moves@ =~= Set::new(
            |to: Position|
                can_land(*board, self.color, to) && sideways_reach(*board, current_position, to),
        ));
        moves
    }

    /// The destinations along the file of the piece, in both directions.
    pub fn look_up_and_down(
        &self,
        current_position: Position,
        board: &GameBoard,
    ) -> (moves: PositionSet)
        requires
            current_position.wf(),
        ensures
            moves@ == Set::new(
                |to: Position|
                    can_land(*board, self.color, to) && up_and_down_reach(
                        *board,
                        current_position,
                        to,
                    ),
            ),
    {
        let mut moves = Self::explore_file(current_position, 1, self.color, board);
        let up = Self::explore_file(current_position, -1, self.color, board);
        moves.extend(&up);
        assert(moves@ =~= Set::new(
            |to: Position|
                can_land(*board, self.color, to) && up_and_down_reach(
                    *board,
                    current_position,
                    to,
                ),
        ));
        moves
    }

    /// The destinations along the two diagonals through the piece, in all
    /// four directions.
    pub fn look_diagonal(
        &self,
        current_position: Position,
        board: &GameBoard,
    ) -> (moves: PositionSet)
        requires
            current_position.wf(),
        ensures
            moves@ == Set::new(
                |to: Position|
                    can_land(*board, self.color, to) && diagonal_reach(
                        *board,
                        current_position,
                        to,
                    ),
            ),
    {
        let mut moves = Self::explore_ray(current_position, -1, -1, self.color, board);
        let bottom_left = Self::explore_ray(current_position, 1, -1, self.color, board);
        let top_right = Self::explore_ray(current_position, -1, 1, self.color, board);
        let bottom_right = Self::explore_ray(current_position, 1, 1, self.color, board);
        moves.extend(&bottom_left);
        moves.extend(&top_right);
        moves.extend(&bottom_right);
        assert(moves@ =~= Set::new(
            |to: Position|
                can_land(*board, self.color, to) && diagonal_reach(*board, current_position, to),
        ));
        moves
    }

    /// The destinations of a rook: along its rank and along its file.
    pub fn explore_rook(
        &self,
        current_position: Position,
        board: &GameBoard,
    ) -> (moves: PositionSet)
        requires
            current_position.wf(),
        ensures
            moves@ == Set::new(
                |to: Position|
                    can_land(*board, self.color, to) && (sideways_reach(
                        *board,
                        current_position,
                        to,
                    ) || up_and_down_reach(*board, current_position, to)),
            ),
    {
        let mut moves = self.look_sideways(current_position, board);
        let vertical = self.look_up_and_down(current_position, board);
        moves.extend(&vertical);
        assert(moves@ =~= Set::new(
            |to: Position|
                can_land(*board, self.color, to) && (sideways_reach(*board, current_position, to)
                    || up_and_down_reach(*board, current_position, to)),
        ));
        moves
    }

    /// The destinations of a queen: those of a rook and those of a bishop.
    pub fn explore_queen(
        &self,
        current_position: Position,
        board: &GameBoard,
    ) -> (moves: PositionSet)
        requires
            current_position.wf(),
        ensures
            moves@ == Set::new(
                |to: Position|
                    can_land(*board, self.color, to) && (sideways_reach(
                        *board,
                        current_position,
                        to,
                    ) || up_and_down_reach(*board, current_position, to) || diagonal_reach(
                        *board,
                        current_position,
                        to,
                    )),
            ),
    {
        let mut moves = self.look_sideways(current_position, board);
        let vertical = self.look_up_and_down(current_position, board);
        let diagonal = self.look_diagonal(current_position, board);
        moves.extend(&vertical);
        moves.extend(&diagonal);
        assert(moves@ =~= Set::new(
            |to: Position|
                can_land(*board, self.color, to) && (sideways_reach(*board, current_position, to)
                    || up_and_down_reach(*board, current_position, to) || diagonal_reach(
                    *board,
                    current_position,
                    to,
                )),
        ));
        moves
    }

    /// Looks at the square displaced from `from` by the given offsets, and
    /// adds it to `moves` if it is on the board and the piece may land on it.
    pub fn explore_step(
        moves: &mut PositionSet,
        from: Position,
        rank_delta: isize,
        file_delta: isize,
        color: Color,
        board: &GameBoard,
    )
        requires
            from.wf(),
        ensures
            forall|to: Position| #[trigger]
                final(moves)@.contains(to) <==> (old(moves)@.contains(to) || (from.shifted(
                    rank_delta as int,
                    file_delta as int,
                ) == Some(to) && can_land(*board, color, to))),
    {
        if let Some(to) = from.translate(rank_delta, file_delta) {
            let (_, landing) = Self::explore_pos_and_break(to, color, board);
            if let Some(square) = landing {
                moves.insert(square);
            }
        }
    }

    /// The destinations of a king: the adjacent squares on which it may land.
    pub fn explore_king(
        &self,
        current_position: Position,
        board: &GameBoard,
    ) -> (moves: PositionSet)
        requires
            current_position.wf(),
        ensures
            moves@ == Set::new(
                |to: Position|
                    can_land(*board, self.color, to) && king_reach(current_position, to),
            ),
    {
        let mut moves = PositionSet::new();
        Self::explore_step(&mut moves, current_position, -1, -1, self.color, board);
        Self::explore_step(&mut moves, current_position, -1, 0, self.color, board);
        Self::explore_step(&mut moves, current_position, -1, 1, self.color, board);
        Self::explore_step(&mut moves, current_position, 0, -1, self.color, board);
        Self::explore_step(&mut moves, current_position, 0, 1, self.color, board);
        Self::explore_step(&mut moves, current_position, 1, -1, self.color, board);
        Self::explore_step(&mut moves, current_position, 1, 0, self.color, board);
        Self::explore_step(&mut moves, current_position, 1, 1, self.color, board);
        proof {
            let wanted = Set::new(
                |to: Position| can_land(*board, self.color, to) && king_reach(current_position, to),
            );
            assert forall|to: Position| moves@.contains(to) <==> wanted.contains(to) by {
                lemma_king_steps(current_position, to);
            }
        }
        moves
    }

    /// The destinations of a knight: the squares an L-shaped jump away on
    /// which it may land.
    pub fn explore_knight(
        &self,
        current_position: Position,
        board: &GameBoard,
    ) -> (moves: PositionSet)
        requires
            current_position.wf(),
        ensures
            moves@ == Set::new(
                |to: Position|
                    can_land(*board, self.color, to) && knight_reach(current_position, to),
            ),
    {
        let mut moves = PositionSet::new();
        Self::explore_step(&mut moves, current_position, -2, -1, self.color, board);
        Self::explore_step(&mut moves, current_position, -2, 1, self.color, board);
        Self::explore_step(&mut moves, current_position, 2, -1, self.color, board);
        Self::explore_step(&mut moves, current_position, 2, 1, self.color, board);
        Self::explore_step(&mut moves, current_position, -1, -2, self.color, board);
        Self::explore_step(&mut moves, current_position, -1, 2, self.color, board);
        Self::explore_step(&mut moves, current_position, 1, -2, self.color, board);
        Self::explore_step(&mut moves, current_position, 1, 2, self.color, board);
        proof {
            let wanted = Set::new(
                |to: Position|
                    can_land(*board, self.color, to) && knight_reach(current_position, to),
            );
            assert forall|to: Position| moves@.contains(to) <==> wanted.contains(to) by {
                lemma_knight_jumps(current_position, to);
            }
        }
        moves
    }

    /// The destinations of a pawn: the square ahead of it and, before its
    /// first move, the square two ahead, each if the pawn may land there.
    pub fn explore_pawn(
        &self,
        current_position: Position,
        board: &GameBoard,
    ) -> (moves: PositionSet)
        requires
            current_position.wf(),
        ensures
            moves@ == Set::new(
                |to: Position|
                    can_land(*board, self.color, to) && pawn_reach(*self, current_position, to),
            ),
    {
        let direction: isize = match self.color {
            Color::White => -1,
            Color::Black => 1,
        };
        let mut moves = PositionSet::new();
        Self::explore_step(&mut moves, current_position, direction, 0, self.color, board);
        if self.move_count == 0 {
            Self::explore_step(&mut moves, current_position, direction * 2, 0, self.color, board);
        }
        proof {
            let wanted = Set::new(
                |to: Position|
                    can_land(*board, self.color, to) && pawn_reach(*self, current_position, to),
            );
            assert forall|to: Position| moves@.contains(to) <==> wanted.contains(to) by {
                lemma_pawn_steps(*self, current_position, to);
            }
        }
        moves
    }

    /// The valid destinations of this piece standing on `current_position`:
    /// the squares that its geometry reaches, past no other piece for the
    /// sliding kinds, and that are empty or hold an enemy piece.
    pub fn get_valid_moves(
        &self,
        current_position: Position,
        board: GameBoard,
    ) -> (moves: PositionSet)
        requires
            current_position.wf(),
        ensures
            moves@ == self.valid_destinations(current_position, board),
            forall|to: Position| moves@.contains(to) ==> to.wf() && to != current_position,
    {
        let moves = match self.kind {
            PieceKind::King => self.explore_king(current_position, &board),
            PieceKind::Queen => self.explore_queen(current_position, &board),
            PieceKind::Rook => self.explore_rook(current_position, &board),
            PieceKind::Bishop => self.look_diagonal(current_position, &board),
            PieceKind::Knight => self.explore_knight(current_position, &board),
            PieceKind::Pawn => self.explore_pawn(current_position, &board),
        };
        moves
    }
}

/// A rook with a piece of its own color two squares along its rank, and
/// nothing in between, has exactly the square in between as a destination
/// in that direction.
pub proof fn lemma_rook_blocked_by_friend(
    rook: Piece,
    from: Position,
    board: GameBoard,
    file_step: int,
    to: Position,
)
    requires
        rook.kind == PieceKind::Rook,
        from.wf(),
        file_step == 1 || file_step == -1,
        on_board(from.rank as int, from.file + 2 * file_step),
        piece_at(board, from.rank as int, from.file + file_step) is None,
        piece_at(board, from.rank as int, from.file + 2 * file_step) matches Some(blocker)
            && blocker.color == rook.color,
        to.rank == from.rank,
        file_step == 1 ==> to.file > from.file,
        file_step == -1 ==> to.file < from.file,
    ensures
        rook.can_move_to(from, board, to) <==> to.file == from.file + file_step,
{
    if distance(from, to) > 2 {
        assert(!path_square_empty(board, from, to, 2));
    }
}

/// A rook with an enemy piece two squares along its rank, and nothing in
/// between, has exactly the square in between and the enemy's square as
/// destinations in that direction.
pub proof fn lemma_rook_captures_enemy(
    rook: Piece,
    from: Position,
    board: GameBoard,
    file_step: int,
    to: Position,
)
    requires
        rook.kind == PieceKind::Rook,
        from.wf(),
        file_step == 1 || file_step == -1,
        on_board(from.rank as int, from.file + 2 * file_step),
        piece_at(board, from.rank as int, from.file + file_step) is None,
        piece_at(board, from.rank as int, from.file + 2 * file_step) matches Some(target)
            && target.color != rook.color,
        to.rank == from.rank,
        file_step == 1 ==> to.file > from.file,
        file_step == -1 ==> to.file < from.file,
    ensures
        rook.can_move_to(from, board, to) <==> (to.file == from.file + file_step || to.file
            == from.file + 2 * file_step),
{
    if distance(from, to) > 2 {
        assert(!path_square_empty(board, from, to, 2));
    }
}

} // verus!
