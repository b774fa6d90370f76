//! The ways an operation on a game can be refused.

use vstd::prelude::*;

verus! {

/// Why an operation was refused. A refused operation changes nothing.
#[derive(Clone, Copy, Debug, PartialEq, Eq, Structural)]
pub enum GameError {
    /// No game has the given id.
    NotFound,
    /// The actor already occupies a seat of the game.
    AlreadySeated,
    /// The seat is occupied.
    SeatTaken,
    /// The secret opens no seat of the game.
    InvalidToken,
    /// The game has reached a terminal status.
    GameFinished,
    /// The side to move belongs to somebody else.
    WrongTurn,
    /// The actor occupies no seat of the game.
    NotSeated,
    /// The text names a move that the position does not allow.
    IllegalMove,
    /// The text is a move in neither notation.
    ParseError,
}

impl GameError {
    /// A sentence for the caller.
    pub fn message(&self) -> (text: &'static str)
        ensures
            text@ == self.message_text(),
    {
        match self {
            GameError::NotFound => "No such game",
            GameError::AlreadySeated => "You already occupy a seat in this game",
            GameError::SeatTaken => "Seat already taken",
            GameError::InvalidToken => "Invalid or already-used token",
            GameError::GameFinished => "Game finished",
            GameError::WrongTurn => "Not your turn",
            GameError::NotSeated => "You are not seated",
            GameError::IllegalMove => "Illegal move",
            GameError::ParseError => "Move must be SAN (e.g. 'e4') or UCI ('e2e4'/'e7e8q')",
        }
    }

    /// The sentence that [`GameError::message`] returns.
    pub open spec fn message_text(&self) -> Seq<char> {
        match self {
            GameError::NotFound => "No such game"@,
            GameError::AlreadySeated => "You already occupy a seat in this game"@,
            GameError::SeatTaken => "Seat already taken"@,
            GameError::InvalidToken => "Invalid or already-used token"@,
            GameError::GameFinished => "Game finished"@,
            GameError::WrongTurn => "Not your turn"@,
            GameError::NotSeated => "You are not seated"@,
            GameError::IllegalMove => "Illegal move"@,
            GameError::ParseError => "Move must be SAN (e.g. 'e4') or UCI ('e2e4'/'e7e8q')"@,
        }
    }
}

} // verus!
