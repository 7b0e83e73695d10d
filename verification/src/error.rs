//! The errors reported by the engine.
use vstd::prelude::*;
use vstd::string::*;

verus! {

/// Why a move was rejected. A rejected move leaves the game untouched.
#[derive(Debug, Clone, Copy, PartialEq, Eq, Structural)]
pub enum MoveError {
    /// The origin square is empty.
    PieceNotFoundError,
    /// The destination is not among the piece's valid destinations.
    IllegalMoveError,
    /// The piece on the origin square belongs to the side that is not to move.
    OutOfTurnError,
}

impl MoveError {
    /// The human-readable description of the error, as a sequence of characters.
    pub open spec fn description_spec(self) -> Seq<char> {
        match self {
            MoveError::PieceNotFoundError => "no piece found at the specified position"@,
            MoveError::IllegalMoveError => "illegal move"@,
            MoveError::OutOfTurnError => "cannot move out of turn"@,
        }
    }

    /// The human-readable description of the error.
    pub fn description(&self) -> (text: String)
        ensures
            text@ == self.description_spec(),
    {
        match self {
            MoveError::PieceNotFoundError => String::from_str(
                "no piece found at the specified position",
            ),
            MoveError::IllegalMoveError => String::from_str("illegal move"),
            MoveError::OutOfTurnError => String::from_str("cannot move out of turn"),
        }
    }
}

/// Why a text is not the algebraic notation of a square.
#[derive(Debug, Clone, Copy, PartialEq, Eq, Structural)]
pub enum ParseError {
    /// The text is not exactly two characters long.
    Length,
    /// The first character is not a file letter from `A` to `H` (in either case).
    File,
    /// The second character is not a rank digit from `1` to `8`.
    Rank,
}

/// Why a request that names a game by the text of its identifier failed.
#[derive(Debug, Clone, Copy, PartialEq, Eq, Structural)]
pub enum RequestError {
    /// The text is not an identifier.
    InvalidGameId,
    /// No game is registered under the identifier.
    GameNotFound,
    /// The game rejected the move.
    Move(MoveError),
}

impl RequestError {
    /// The status with which a server answers: 400 for a text that is no
    /// identifier, 404 for an unknown game and for a rejected move.
    pub open spec fn status_spec(self) -> u16 {
        match self {
            RequestError::InvalidGameId => 400,
            RequestError::GameNotFound => 404,
            RequestError::Move(_) => 404,
        }
    }

    /// The human-readable description of the error, as a sequence of characters.
    pub open spec fn description_spec(self) -> Seq<char> {
        match self {
            RequestError::InvalidGameId => "Invalid game ID"@,
            RequestError::GameNotFound => "No game found for the supplied game ID"@,
            RequestError::Move(error) => error.description_spec(),
        }
    }

    /// The status with which a server answers the failed request.
    pub fn status(&self) -> (code: u16)
        ensures
            code == self.status_spec(),
    {
        match self {
            RequestError::InvalidGameId => 400,
            RequestError::GameNotFound => 404,
            RequestError::Move(_) => 404,
        }
    }

    /// The human-readable description of the error.
    pub fn description(&self) -> (text: String)
        ensures
            text@ == self.description_spec(),
    {
        match self {
            RequestError::InvalidGameId => String::from_str("Invalid game ID"),
            RequestError::GameNotFound => String::from_str(
                "No game found for the supplied game ID",
            ),
            RequestError::Move(error) => error.description(),
        }
    }
}

} // verus!
