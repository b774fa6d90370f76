//! Outcome of a game and the role an actor plays in it.

use vstd::prelude::*;
use crate::engine::{
    accepted, checkers, checkers_of, legal_moves, legal_moves_of, side_to_move, white_to_move_of,
};

verus! {

/// Where a game stands. Everything but `Ongoing` is terminal.
#[derive(Clone, Debug)]
pub enum GameStatus {
    Ongoing,
    Checkmate { winner_white: bool },
    Stalemate,
    Draw { reason: String },
    Resigned { winner_white: bool },
}

/// Mathematical value of a [`GameStatus`].
pub enum StatusModel {
    Ongoing,
    Checkmate { winner_white: bool },
    Stalemate,
    Draw { reason: Seq<char> },
    Resigned { winner_white: bool },
}

impl StatusModel {
    /// No move and no resignation is accepted any more.
    pub open spec fn is_terminal(self) -> bool {
        !(self is Ongoing)
    }
}

impl View for GameStatus {
    type V = StatusModel;

    open spec fn view(&self) -> StatusModel {
        match *self {
            GameStatus::Ongoing => StatusModel::Ongoing,
            GameStatus::Checkmate { winner_white } => StatusModel::Checkmate { winner_white },
            GameStatus::Stalemate => StatusModel::Stalemate,
            GameStatus::Draw { reason } => StatusModel::Draw { reason: reason@ },
            GameStatus::Resigned { winner_white } => StatusModel::Resigned { winner_white },
        }
    }
}

impl GameStatus {
    /// Whether the game still accepts moves.
    pub fn is_ongoing(&self) -> (r: bool)
        ensures
            r == (self@ is Ongoing),
    {
        match self {
            GameStatus::Ongoing => true,
            _ => false,
        }
    }

    /// A copy with the same value.
    pub fn duplicate(&self) -> (r: GameStatus)
        ensures
            r@ == self@,
    {
        match self {
            GameStatus::Ongoing => GameStatus::Ongoing,
            GameStatus::Checkmate { winner_white } => GameStatus::Checkmate {
                winner_white: *winner_white,
            },
            GameStatus::Stalemate => GameStatus::Stalemate,
            GameStatus::Draw { reason } => GameStatus::Draw { reason: reason.clone() },
            GameStatus::Resigned { winner_white } => GameStatus::Resigned {
                winner_white: *winner_white,
            },
        }
    }
}

/// The status that the engine's three answers about a position amount to:
/// whether the side to move has a legal move, whether it is in check, and
/// which side it is. With no legal move left, the side that just moved has won
/// if the side to move is in check, and the game is a stalemate if not.
pub open spec fn status_of(has_move: bool, in_check: bool, white_to_move: bool) -> StatusModel {
    if has_move {
        StatusModel::Ongoing
    } else if in_check {
        StatusModel::Checkmate { winner_white: !white_to_move }
    } else {
        StatusModel::Stalemate
    }
}

/// The status of the position with the given FEN, from its legal moves, the
/// pieces that give check and the side to move; `None` where the engine does
/// not accept the FEN.
pub open spec fn status_in(fen: Seq<char>) -> Option<StatusModel> {
    match legal_moves_of(fen) {
        Some(replies) => Some(
            status_of(
                replies.len() > 0,
                checkers_of(fen)->Some_0 != 0,
                white_to_move_of(fen)->Some_0,
            ),
        ),
        None => None,
    }
}

/// Derives a status from the engine's three answers.
pub fn evaluate(has_move: bool, in_check: bool, white_to_move: bool) -> (s: GameStatus)
    ensures
        s@ == status_of(has_move, in_check, white_to_move),
{
    if !has_move {
        if in_check {
            return GameStatus::Checkmate { winner_white: !white_to_move };
        } else {
            return GameStatus::Stalemate;
        }
    }
    GameStatus::Ongoing
}

/// Asks the engine for the legal moves of a position, for the pieces that
/// give check and for the side to move, and derives the position's status.
/// There is a status exactly where the engine accepts the FEN.
pub fn compute_status(fen: &str) -> (status: Option<GameStatus>)
    ensures
        match status_in(fen@) {
            Some(expected) => status matches Some(s) && s@ == expected,
            None => status is None,
        },
        status is Some <==> accepted(fen@),
{
    let replies = match legal_moves(fen) {
        Some(replies) => replies,
        None => return None,
    };
    let mask = match checkers(fen) {
        Some(mask) => mask,
        None => return None,
    };
    let white_to_move = match side_to_move(fen) {
        Some(white) => white,
        None => return None,
    };
    Some(evaluate(replies.len() > 0, mask != 0, white_to_move))
}

/// The part an actor plays in a game.
#[derive(Clone, Copy, Debug, PartialEq, Eq, Structural)]
pub enum PlayerRole {
    White,
    Black,
    Spectator,
}

} // verus!
