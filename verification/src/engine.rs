//! The chess rules engine, `shakmaty`, behind contracts.
//!
//! A position crosses this boundary as its FEN text and a move as its place in
//! the engine's list of legal moves, so that everything the session logic
//! reads is a plain value. What the engine computes is named, not restated:
//! each function below says which named value it returns, on which inputs
//! there is one, and what a played move does to the turn.

use vstd::prelude::*;

verus! {

/// A legal move as the session logic sees it: origin and target square
/// (0 is a1, 7 is h1, 63 is h8; a castling move targets the rook's square) and
/// the lower-case letter of the piece a pawn promotes to.
#[derive(Clone, Copy, Debug, PartialEq, Eq, Structural)]
pub struct Candidate {
    pub from: Option<u8>,
    pub to: u8,
    pub promotion: Option<char>,
}

/// A position: its FEN text and the side to move.
#[derive(Clone, Debug)]
pub struct Position {
    pub fen: String,
    pub white_to_move: bool,
}

/// Mathematical value of a [`Position`].
pub struct PositionModel {
    pub fen: Seq<char>,
    pub white_to_move: bool,
}

impl View for Position {
    type V = PositionModel;

    open spec fn view(&self) -> PositionModel {
        PositionModel { fen: self.fen@, white_to_move: self.white_to_move }
    }
}

/// How the engine reads a move written in standard algebraic notation.
#[derive(Clone, Copy, Debug, PartialEq, Eq, Structural)]
pub enum SanReading {
    /// The text is not algebraic notation.
    NotNotation,
    /// The text is notation, but for no single legal move of the position.
    NoSuchMove,
    /// The text names this legal move.
    Move(Candidate),
}

/// FEN of the position from which every game starts.
pub open spec fn initial_fen() -> Seq<char> {
    "rnbqkbnr/pppppppp/8/8/8/8/PPPPPPPP/RNBQKBNR w KQkq - 0 1"@
}

/// The legal moves of the position with the given FEN, in the order in which
/// the engine generates them; `None` where the engine does not accept the FEN.
pub uninterp spec fn legal_moves_of(fen: Seq<char>) -> Option<Seq<Candidate>>;

/// Bitboard of the pieces that give check to the side to move.
pub uninterp spec fn checkers_of(fen: Seq<char>) -> Option<u64>;

/// Whether White is to move in the position with the given FEN.
pub uninterp spec fn white_to_move_of(fen: Seq<char>) -> Option<bool>;

/// Standard algebraic notation of the `index`-th legal move.
pub uninterp spec fn notation_of(fen: Seq<char>, index: int) -> Option<Seq<char>>;

/// The position that the `index`-th legal move leads to.
pub uninterp spec fn position_after(fen: Seq<char>, index: int) -> Option<PositionModel>;

/// The engine's reading of `text` as algebraic notation in the position.
pub uninterp spec fn san_reading_of(fen: Seq<char>, text: Seq<char>) -> SanReading;

/// Whether the engine accepts a FEN as a position.
pub open spec fn accepted(fen: Seq<char>) -> bool {
    legal_moves_of(fen) is Some
}

/// Whether the position with the given FEN has a legal move at place `index`.
pub open spec fn has_move_at(fen: Seq<char>, index: int) -> bool {
    legal_moves_of(fen) matches Some(list) && 0 <= index < list.len()
}

impl PositionModel {
    /// The side to move is the one that the engine reads from the FEN,
    /// wherever it accepts the FEN.
    pub open spec fn agrees(self) -> bool {
        white_to_move_of(self.fen) matches Some(white) ==> white == self.white_to_move
    }
}

/// `Chess::default()`, written out with `Fen::from_position` and
/// `Position::turn`. The contract claims that the engine starts a game from
/// the standard array with White to move, every castling right, no en passant
/// square and the counters at 0 and 1, and that the FEN says so.
#[verifier::external_body]
pub(crate) fn initial_position() -> (start: Position)
    ensures
        start@.fen == initial_fen(),
        start@.white_to_move,
        start@.agrees(),
{
    let pos = shakmaty::Chess::default();
    Position {
        fen: shakmaty::fen::Fen::from_position(&pos, shakmaty::EnPassantMode::Legal).to_string(),
        white_to_move: shakmaty::Position::turn(&pos).is_white(),
    }
}

/// `Position::legal_moves` on the position that `Fen::from_ascii` and
/// `Fen::into_position` make of the text. Each move is handed out as its
/// `from()`, `to()` and `promotion()`.
#[verifier::external_body]
pub(crate) fn legal_moves(fen: &str) -> (moves: Option<Vec<Candidate>>)
    ensures
        match legal_moves_of(fen@) {
            Some(list) => moves matches Some(v) && v@ == list,
            None => moves is None,
        },
{
    let setup = shakmaty::fen::Fen::from_ascii(fen.as_bytes()).ok()?;
    let pos: shakmaty::Chess = setup.into_position(shakmaty::CastlingMode::Standard).ok()?;
    let list = shakmaty::Position::legal_moves(&pos);
    Some(list.iter().map(|m| Candidate {
        from: m.from().map(u8::from),
        to: u8::from(m.to()),
        promotion: m.promotion().map(shakmaty::Role::char),
    }).collect())
}

/// `Position::checkers` on the position that the text stands for, as the
/// bitboard's 64 bits. There is an answer exactly where the engine accepts the
/// FEN.
#[verifier::external_body]
pub(crate) fn checkers(fen: &str) -> (mask: Option<u64>)
    ensures
        mask == checkers_of(fen@),
        mask is Some <==> accepted(fen@),
{
    let setup = shakmaty::fen::Fen::from_ascii(fen.as_bytes()).ok()?;
    let pos: shakmaty::Chess = setup.into_position(shakmaty::CastlingMode::Standard).ok()?;
    Some(shakmaty::Position::checkers(&pos).0)
}

/// `Position::turn` on the position that the text stands for. There is an
/// answer exactly where the engine accepts the FEN.
#[verifier::external_body]
pub(crate) fn side_to_move(fen: &str) -> (white: Option<bool>)
    ensures
        white == white_to_move_of(fen@),
        white is Some <==> accepted(fen@),
{
    let setup = shakmaty::fen::Fen::from_ascii(fen.as_bytes()).ok()?;
    let pos: shakmaty::Chess = setup.into_position(shakmaty::CastlingMode::Standard).ok()?;
    Some(shakmaty::Position::turn(&pos).is_white())
}

/// `San::from_move` for the `index`-th legal move of the position that the
/// text stands for, written out as text. There is a notation exactly where
/// the position has a legal move at that place.
#[verifier::external_body]
pub(crate) fn notation(fen: &str, index: usize) -> (san: Option<String>)
    ensures
        match notation_of(fen@, index as int) {
            Some(text) => san matches Some(s) && s@ == text,
            None => san is None,
        },
        san is Some <==> has_move_at(fen@, index as int),
{
    let setup = shakmaty::fen::Fen::from_ascii(fen.as_bytes()).ok()?;
    let pos: shakmaty::Chess = setup.into_position(shakmaty::CastlingMode::Standard).ok()?;
    let m = *shakmaty::Position::legal_moves(&pos).get(index)?;
    Some(shakmaty::san::San::from_move(&pos, m).to_string())
}

/// `Position::play` with the `index`-th legal move of the position that the
/// text stands for; the new position comes back as its FEN and its turn.
/// There is a new position exactly where the position has a legal move at
/// that place; the move hands the turn to the other side, and the new FEN
/// names the side that the new position has to move.
#[verifier::external_body]
pub(crate) fn play(fen: &str, index: usize) -> (next: Option<Position>)
    ensures
        match position_after(fen@, index as int) {
            Some(p) => next matches Some(n) && n@ == p,
            None => next is None,
        },
        next is Some <==> has_move_at(fen@, index as int),
        next matches Some(n) ==> white_to_move_of(fen@) == Some(!n.white_to_move) && n@.agrees(),
{
    let setup = shakmaty::fen::Fen::from_ascii(fen.as_bytes()).ok()?;
    let pos: shakmaty::Chess = setup.into_position(shakmaty::CastlingMode::Standard).ok()?;
    let m = *shakmaty::Position::legal_moves(&pos).get(index)?;
    let pos = shakmaty::Position::play(pos, m).ok()?;
    Some(Position {
        fen: shakmaty::fen::Fen::from_position(&pos, shakmaty::EnPassantMode::Legal).to_string(),
        white_to_move: shakmaty::Position::turn(&pos).is_white(),
    })
}

/// `San::from_ascii` on the text, then `San::to_move` in the position that the
/// FEN stands for. A text that does not parse is `NotNotation`; a FEN that the
/// engine refuses, or notation without a single matching legal move, is
/// `NoSuchMove`.
#[verifier::external_body]
pub(crate) fn read_san(fen: &str, text: &str) -> (reading: SanReading)
    ensures
        reading == san_reading_of(fen@, text@),
{
    let Ok(san) = shakmaty::san::San::from_ascii(text.as_bytes()) else {
        return SanReading::NotNotation;
    };
    let found = shakmaty::fen::Fen::from_ascii(fen.as_bytes()).ok()
        .and_then(|f| f.into_position::<shakmaty::Chess>(shakmaty::CastlingMode::Standard).ok())
        .and_then(|pos| san.to_move(&pos).ok());
    let Some(m) = found else {
        return SanReading::NoSuchMove;
    };
    let promotion = m.promotion().map(shakmaty::Role::char);
    SanReading::Move(Candidate { from: m.from().map(u8::from), to: u8::from(m.to()), promotion })
}

} // verus!
