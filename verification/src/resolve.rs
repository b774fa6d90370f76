//! Resolving the text a caller typed into one legal move of a position.
//!
//! Two notations are tried in order. Coordinate notation names the origin and
//! the target square and, optionally, the piece a pawn promotes to (`e2e4`,
//! `e7e8q`). Anything else is handed to the engine as standard algebraic
//! notation (`e4`, `Nf3`, `O-O`).

use vstd::prelude::*;
use crate::engine::{Candidate, SanReading, legal_moves, legal_moves_of, read_san, san_reading_of};
use crate::error::GameError;

verus! {

/// A move in coordinate notation.
#[derive(Clone, Copy, Debug, PartialEq, Eq, Structural)]
pub struct Coordinate {
    pub from: u8,
    pub to: u8,
    pub promotion: Option<char>,
}

/// Index of the square with the given file and rank letters: `a1` is 0, `h1`
/// is 7, `h8` is 63. Only lower-case files name a square.
pub open spec fn square_index(file: char, rank: char) -> Option<u8> {
    if 'a' <= file <= 'h' && '1' <= rank <= '8' {
        Some(((rank as u8 - '1' as u8) * 8 + (file as u8 - 'a' as u8)) as u8)
    } else {
        None
    }
}

/// The piece a promotion letter stands for, in lower case. Letters are
/// accepted in either case; any other character names no piece.
pub open spec fn promotion_piece(letter: char) -> Option<char> {
    if letter == 'q' || letter == 'Q' {
        Some('q')
    } else if letter == 'r' || letter == 'R' {
        Some('r')
    } else if letter == 'b' || letter == 'B' {
        Some('b')
    } else if letter == 'n' || letter == 'N' {
        Some('n')
    } else {
        None
    }
}

/// What a text says when read as coordinate notation: two squares, and after
/// them either nothing or a promotion letter. Any other text is not
/// coordinate notation.
pub open spec fn coordinate_of(text: Seq<char>) -> Option<Coordinate> {
    if text.len() != 4 && text.len() != 5 {
        None
    } else {
        match (square_index(text[0], text[1]), square_index(text[2], text[3])) {
            (Some(from), Some(to)) => if text.len() == 4 {
                Some(Coordinate { from, to, promotion: None })
            } else {
                match promotion_piece(text[4]) {
                    Some(piece) => Some(Coordinate { from, to, promotion: Some(piece) }),
                    None => None,
                }
            },
            _ => None,
        }
    }
}

/// Whether a legal move is the one that a coordinate request asks for. With
/// no promotion asked for, a move that promotes is accepted only as a queen
/// promotion.
pub open spec fn answers(candidate: Candidate, wanted: Coordinate) -> bool {
    &&& candidate.from == Some(wanted.from)
    &&& candidate.to == wanted.to
    &&& match wanted.promotion {
        Some(piece) => candidate.promotion == Some(piece),
        None => candidate.promotion is None || candidate.promotion == Some('q'),
    }
}

/// The first place at or after `start` at which `moves` holds a move that
/// answers the request.
pub open spec fn first_answer(moves: Seq<Candidate>, wanted: Coordinate, start: int) -> Option<int>
    decreases moves.len() - start,
{
    if start < 0 || start >= moves.len() {
        None
    } else if answers(moves[start], wanted) {
        Some(start)
    } else {
        first_answer(moves, wanted, start + 1)
    }
}

/// The first place at or after `start` at which `moves` holds `wanted`.
pub open spec fn first_equal(moves: Seq<Candidate>, wanted: Candidate, start: int) -> Option<int>
    decreases moves.len() - start,
{
    if start < 0 || start >= moves.len() {
        None
    } else if moves[start] == wanted {
        Some(start)
    } else {
        first_equal(moves, wanted, start + 1)
    }
}

/// The move a text resolves to among `moves`, given the engine's reading of
/// the text as algebraic notation: the first move that answers the text read
/// as coordinates, else the move the engine read. Text in neither notation is
/// a `ParseError`; notation for no legal move is an `IllegalMove`.
pub open spec fn resolution(moves: Seq<Candidate>, text: Seq<char>, reading: SanReading) -> Result<
    int,
    GameError,
> {
    let by_coordinate = match coordinate_of(text) {
        Some(wanted) => first_answer(moves, wanted, 0),
        None => None,
    };
    match by_coordinate {
        Some(index) => Ok(index),
        None => match reading {
            SanReading::NotNotation => Err(GameError::ParseError),
            SanReading::NoSuchMove => Err(GameError::IllegalMove),
            SanReading::Move(m) => match first_equal(moves, m, 0) {
                Some(index) => Ok(index),
                None => Err(GameError::IllegalMove),
            },
        },
    }
}

/// The legal moves of a position; a position that the engine refuses has none.
pub open spec fn moves_in(fen: Seq<char>) -> Seq<Candidate> {
    match legal_moves_of(fen) {
        Some(list) => list,
        None => Seq::empty(),
    }
}

/// The legal move that a text resolves to in the position with the given FEN,
/// as its place among the position's legal moves.
pub open spec fn resolved(fen: Seq<char>, text: Seq<char>) -> Result<int, GameError> {
    resolution(moves_in(fen), text, san_reading_of(fen, text))
}

/// A resolved move is one of the moves it was resolved among.
pub proof fn lemma_resolution_in_range(moves: Seq<Candidate>, text: Seq<char>, reading: SanReading)
    ensures
        resolution(moves, text, reading) matches Ok(index) ==> 0 <= index < moves.len(),
{
    if let Some(wanted) = coordinate_of(text) {
        lemma_first_answer(moves, wanted, 0);
    }
    if let SanReading::Move(m) = reading {
        lemma_first_equal(moves, m, 0);
    }
}

/// `first_answer` finds the least place from `start` on whose move answers the
/// request, and finds none only where there is none.
pub proof fn lemma_first_answer(moves: Seq<Candidate>, wanted: Coordinate, start: int)
    requires
        0 <= start,
    ensures
        match first_answer(moves, wanted, start) {
            Some(index) => {
                &&& start <= index < moves.len()
                &&& answers(moves[index], wanted)
                &&& forall|j: int| start <= j < index ==> !answers(#[trigger] moves[j], wanted)
            },
            None => forall|j: int| start <= j < moves.len() ==> !answers(#[trigger] moves[j], wanted),
        },
    decreases moves.len() - start,
{
    if start < moves.len() && !answers(moves[start], wanted) {
        lemma_first_answer(moves, wanted, start + 1);
    }
}

/// `first_equal` finds the least place from `start` on that holds the move,
/// and finds none only where there is none.
pub proof fn lemma_first_equal(moves: Seq<Candidate>, wanted: Candidate, start: int)
    requires
        0 <= start,
    ensures
        match first_equal(moves, wanted, start) {
            Some(index) => {
                &&& start <= index < moves.len()
                &&& moves[index] == wanted
                &&& forall|j: int| start <= j < index ==> #[trigger] moves[j] != wanted
            },
            None => forall|j: int| start <= j < moves.len() ==> #[trigger] moves[j] != wanted,
        },
    decreases moves.len() - start,
{
    if start < moves.len() && moves[start] != wanted {
        lemma_first_equal(moves, wanted, start + 1);
    }
}

/// Reads two characters as a square.
pub fn parse_square(file: char, rank: char) -> (square: Option<u8>)
    ensures
        square == square_index(file, rank),
        square matches Some(index) ==> index < 64,
{
    if 'a' <= file && file <= 'h' && '1' <= rank && rank <= '8' {
        let f: u8 = file as u8 - 'a' as u8;
        let r: u8 = rank as u8 - '1' as u8;
        Some(r * 8 + f)
    } else {
        None
    }
}

/// Reads a promotion letter.
pub fn parse_promotion(letter: char) -> (piece: Option<char>)
    ensures
        piece == promotion_piece(letter),
{
    if letter == 'q' || letter == 'Q' {
        Some('q')
    } else if letter == 'r' || letter == 'R' {
        Some('r')
    } else if letter == 'b' || letter == 'B' {
        Some('b')
    } else if letter == 'n' || letter == 'N' {
        Some('n')
    } else {
        None
    }
}

/// Reads a text as coordinate notation.
pub fn parse_coordinate(text: &str) -> (wanted: Option<Coordinate>)
    ensures
        wanted == coordinate_of(text@),
{
    let n = text.unicode_len();
    if n != 4 && n != 5 {
        return None;
    }
    let from = parse_square(text.get_char(0), text.get_char(1));
    let to = parse_square(text.get_char(2), text.get_char(3));
    match (from, to) {
        (Some(from), Some(to)) => {
            if n == 4 {
                return Some(Coordinate { from, to, promotion: None });
            }
            match parse_promotion(text.get_char(4)) {
                Some(piece) => Some(Coordinate { from, to, promotion: Some(piece) }),
                None => None,
            }
        },
        _ => None,
    }
}

/// Whether a legal move is the one that a coordinate request asks for.
pub fn is_answer(candidate: &Candidate, wanted: &Coordinate) -> (yes: bool)
    ensures
        yes == answers(*candidate, *wanted),
{
    let from_ok = match candidate.from {
        Some(from) => from == wanted.from,
        None => false,
    };
    if !from_ok || candidate.to != wanted.to {
        return false;
    }
    match (wanted.promotion, candidate.promotion) {
        (Some(piece), Some(got)) => got == piece,
        (Some(_), None) => false,
        (None, Some(got)) => got == 'q',
        (None, None) => true,
    }
}

/// Finds a text's move among the legal moves by reading it as coordinate
/// notation: the first legal move with the named origin and target whose
/// promotion is the one asked for. `None` where the text is not coordinate
/// notation or no legal move answers it.
pub fn parse_uci_to_move(moves: &Vec<Candidate>, text: &str) -> (found: Option<usize>)
    ensures
        match found {
            Some(index) => {
                &&& index < moves.len()
                &&& coordinate_of(text@) matches Some(wanted)
                &&& first_answer(moves@, wanted, 0) == Some(index as int)
                &&& answers(moves@[index as int], wanted)
                &&& forall|j: int| 0 <= j < index ==> !answers(#[trigger] moves@[j], wanted)
            },
            None => coordinate_of(text@) matches Some(wanted) ==> {
                &&& first_answer(moves@, wanted, 0) is None
                &&& forall|j: int| 0 <= j < moves.len() ==> !answers(#[trigger] moves@[j], wanted)
            },
        },
{
    let wanted = match parse_coordinate(text) {
        Some(wanted) => wanted,
        None => return None,
    };
    let mut i: usize = 0;
    while i < moves.len()
        invariant
            i <= moves.len(),
            coordinate_of(text@) == Some(wanted),
            first_answer(moves@, wanted, 0) == first_answer(moves@, wanted, i as int),
        decreases moves.len() - i,
    {
        if is_answer(&moves[i], &wanted) {
            proof {
                lemma_first_answer(moves@, wanted, 0);
            }
            return Some(i);
        }
        i += 1;
    }
    proof {
        lemma_first_answer(moves@, wanted, 0);
    }
    None
}

/// Finds the place of a move among the legal moves.
pub fn find_move(moves: &Vec<Candidate>, wanted: &Candidate) -> (found: Option<usize>)
    ensures
        match found {
            Some(index) => {
                &&& index < moves.len()
                &&& first_equal(moves@, *wanted, 0) == Some(index as int)
                &&& moves@[index as int] == *wanted
                &&& forall|j: int| 0 <= j < index ==> #[trigger] moves@[j] != *wanted
            },
            None => {
                &&& first_equal(moves@, *wanted, 0) is None
                &&& forall|j: int| 0 <= j < moves.len() ==> #[trigger] moves@[j] != *wanted
            },
        },
{
    let mut i: usize = 0;
    while i < moves.len()
        invariant
            i <= moves.len(),
            first_equal(moves@, *wanted, 0) == first_equal(moves@, *wanted, i as int),
        decreases moves.len() - i,
    {
        if moves[i] == *wanted {
            proof {
                lemma_first_equal(moves@, *wanted, 0);
            }
            return Some(i);
        }
        i += 1;
    }
    proof {
        lemma_first_equal(moves@, *wanted, 0);
    }
    None
}

/// Settles what the engine read as algebraic notation: the place of the move
/// it read among the legal moves, or why there is none.
pub fn settle_reading(moves: &Vec<Candidate>, reading: SanReading) -> (index: Result<
    usize,
    GameError,
>)
    ensures
        match index {
            Ok(place) => {
                &&& place < moves.len()
                &&& reading matches SanReading::Move(m)
                &&& first_equal(moves@, m, 0) == Some(place as int)
            },
            Err(e) => match reading {
                SanReading::NotNotation => e == GameError::ParseError,
                SanReading::NoSuchMove => e == GameError::IllegalMove,
                SanReading::Move(m) => e == GameError::IllegalMove && first_equal(moves@, m, 0)
                    is None,
            },
        },
{
    match reading {
        SanReading::NotNotation => Err(GameError::ParseError),
        SanReading::NoSuchMove => Err(GameError::IllegalMove),
        SanReading::Move(m) => match find_move(moves, &m) {
            Some(place) => Ok(place),
            None => Err(GameError::IllegalMove),
        },
    }
}

/// The legal moves of a position, none where the engine refuses it.
pub fn moves_of(fen: &str) -> (moves: Vec<Candidate>)
    ensures
        moves@ == moves_in(fen@),
{
    match legal_moves(fen) {
        Some(list) => list,
        None => Vec::new(),
    }
}

/// Resolves the text a caller typed to a legal move of the position, trying
/// coordinate notation first and algebraic notation second. The move comes
/// back as its place among the position's legal moves.
pub fn parse_move_with_autopromo(fen: &str, text: &str) -> (index: Result<usize, GameError>)
    ensures
        match index {
            Ok(place) => place < moves_in(fen@).len() && resolved(fen@, text@) == Ok::<
                int,
                GameError,
            >(place as int),
            Err(e) => resolved(fen@, text@) == Err::<int, GameError>(e),
        },
{
    let moves = moves_of(fen);
    if let Some(place) = parse_uci_to_move(&moves, text) {
        return Ok(place);
    }
    settle_reading(&moves, read_san(fen, text))
}

} // verus!
