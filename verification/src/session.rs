//! One game: its seats, its position, its history and its status.
//!
//! Every operation validates before it commits. It either returns the game's
//! new snapshot, or an error and the game exactly as it was.

use vstd::prelude::*;
use crate::engine::{
    Position, PositionModel, accepted, has_move_at, initial_fen, initial_position, notation,
    notation_of, play, position_after, white_to_move_of,
};
use crate::error::GameError;
use crate::resolve::{parse_move_with_autopromo, resolved};
use crate::status::{GameStatus, PlayerRole, StatusModel, compute_status, status_in};
use crate::token::{Actor, Seat, SeatModel};

verus! {

/// The texts that a list of strings holds.
pub open spec fn texts(list: Seq<String>) -> Seq<Seq<char>> {
    list.map_values(|s: String| s@)
}

/// Who holds a seat, if anybody.
pub open spec fn occupant_of(seat: SeatModel) -> Option<Seq<u8>> {
    match seat {
        SeatModel::Claimed { actor } => Some(actor),
        SeatModel::Unclaimed { .. } => None,
    }
}

/// The identity an optional actor stands for.
pub open spec fn identity(who: Option<Actor>) -> Option<Seq<u8>> {
    match who {
        Some(actor) => Some(actor@),
        None => None,
    }
}

/// A copy of a list of strings.
pub fn copy_texts(list: &Vec<String>) -> (copy: Vec<String>)
    ensures
        texts(copy@) == texts(list@),
{
    let mut copy: Vec<String> = Vec::new();
    let mut i: usize = 0;
    while i < list.len()
        invariant
            i <= list.len(),
            copy.len() == i,
            forall|j: int| 0 <= j < i ==> copy@[j]@ == list@[j]@,
        decreases list.len() - i,
    {
        copy.push(list[i].clone());
        i += 1;
    }
    assert(texts(copy@) =~= texts(list@));
    copy
}

/// A game as the registry keeps it.
#[derive(Clone, Debug)]
pub struct GameInternal {
    pub id: u64,
    pub position: Position,
    pub moves_san: Vec<String>,
    pub white: Seat,
    pub black: Seat,
    pub status: GameStatus,
    pub created_ns: u64,
    pub updated_ns: u64,
}

/// Mathematical value of a [`GameInternal`].
pub struct GameModel {
    pub id: u64,
    pub position: PositionModel,
    pub moves_san: Seq<Seq<char>>,
    pub white: SeatModel,
    pub black: SeatModel,
    pub status: StatusModel,
    pub created_ns: u64,
    pub updated_ns: u64,
}

/// What a game shows to the outside: everything but the seats' digests.
#[derive(Clone, Debug)]
pub struct GameView {
    pub id: u64,
    pub white: Option<Actor>,
    pub black: Option<Actor>,
    pub fen: String,
    pub moves_san: Vec<String>,
    pub status: GameStatus,
    pub created_ns: u64,
    pub updated_ns: u64,
    pub to_move_white: bool,
    pub white_principal: Option<Actor>,
    pub black_principal: Option<Actor>,
}

/// Mathematical value of a [`GameView`].
pub struct ViewModel {
    pub id: u64,
    pub white: Option<Seq<u8>>,
    pub black: Option<Seq<u8>>,
    pub fen: Seq<char>,
    pub moves_san: Seq<Seq<char>>,
    pub status: StatusModel,
    pub created_ns: u64,
    pub updated_ns: u64,
    pub to_move_white: bool,
    pub white_principal: Option<Seq<u8>>,
    pub black_principal: Option<Seq<u8>>,
}

impl View for GameView {
    type V = ViewModel;

    open spec fn view(&self) -> ViewModel {
        ViewModel {
            id: self.id,
            white: identity(self.white),
            black: identity(self.black),
            fen: self.fen@,
            moves_san: texts(self.moves_san@),
            status: self.status@,
            created_ns: self.created_ns,
            updated_ns: self.updated_ns,
            to_move_white: self.to_move_white,
            white_principal: identity(self.white_principal),
            black_principal: identity(self.black_principal),
        }
    }
}

impl View for GameInternal {
    type V = GameModel;

    open spec fn view(&self) -> GameModel {
        GameModel {
            id: self.id,
            position: self.position@,
            moves_san: texts(self.moves_san@),
            white: self.white@,
            black: self.black@,
            status: self.status@,
            created_ns: self.created_ns,
            updated_ns: self.updated_ns,
        }
    }
}

impl GameModel {
    /// A game as it is created: the initial position, nobody seated, nothing
    /// played.
    pub open spec fn fresh(id: u64, white_hash: Seq<u8>, black_hash: Seq<u8>, now: u64) -> GameModel {
        GameModel {
            id,
            position: PositionModel { fen: initial_fen(), white_to_move: true },
            moves_san: Seq::empty(),
            white: SeatModel::Unclaimed { hash: white_hash },
            black: SeatModel::Unclaimed { hash: black_hash },
            status: StatusModel::Ongoing,
            created_ns: now,
            updated_ns: now,
        }
    }

    /// The snapshot shown to callers. Each seat's occupant is shown twice,
    /// under both of the snapshot's names for it.
    pub open spec fn projection(self) -> ViewModel {
        ViewModel {
            id: self.id,
            white: occupant_of(self.white),
            black: occupant_of(self.black),
            fen: self.position.fen,
            moves_san: self.moves_san,
            status: self.status,
            created_ns: self.created_ns,
            updated_ns: self.updated_ns,
            to_move_white: self.position.white_to_move,
            white_principal: occupant_of(self.white),
            black_principal: occupant_of(self.black),
        }
    }

    /// Whether `actor` may move now: the game is on, and the seat of the side
    /// to move is free or the actor's.
    pub open spec fn may_move(self, actor: Seq<u8>) -> bool {
        &&& !self.status.is_terminal()
        &&& self.seat_to_move() is Claimed ==> self.seat_to_move().held_by(actor)
    }

    /// The game with a played move recorded: its notation appended, the new
    /// position and the new status.
    pub open spec fn recorded(
        self,
        san: Seq<char>,
        next: PositionModel,
        status: StatusModel,
        now: u64,
    ) -> GameModel {
        GameModel {
            position: next,
            moves_san: self.moves_san.push(san),
            status,
            updated_ns: now,
            ..self
        }
    }

    /// Whether `actor` holds a seat.
    pub open spec fn seated(self, actor: Seq<u8>) -> bool {
        self.white.held_by(actor) || self.black.held_by(actor)
    }

    /// The part `actor` plays.
    pub open spec fn role_of(self, actor: Seq<u8>) -> PlayerRole {
        if self.white.held_by(actor) {
            PlayerRole::White
        } else if self.black.held_by(actor) {
            PlayerRole::Black
        } else {
            PlayerRole::Spectator
        }
    }

    /// The seat of the side to move.
    pub open spec fn seat_to_move(self) -> SeatModel {
        if self.position.white_to_move {
            self.white
        } else {
            self.black
        }
    }

    /// The game after `actor` joins with `secret`, or why it stays as it is.
    /// An actor sits once. The white seat is tried first, the black seat
    /// second; a secret that opens neither is an `InvalidToken`.
    pub open spec fn join(self, secret: Seq<char>, actor: Seq<u8>, now: u64) -> Result<
        GameModel,
        GameError,
    > {
        if self.seated(actor) {
            Err(GameError::AlreadySeated)
        } else {
            match self.white.claim(secret, actor) {
                Ok(seat) => Ok(GameModel { white: seat, updated_ns: now, ..self }),
                Err(_) => match self.black.claim(secret, actor) {
                    Ok(seat) => Ok(GameModel { black: seat, updated_ns: now, ..self }),
                    Err(_) => Err(GameError::InvalidToken),
                },
            }
        }
    }

    /// The game after the legal move at place `index` of the position's legal
    /// moves: the engine's notation of the move appended, the position it
    /// leads to, and the status that position has. A move whose notation,
    /// outcome or resulting status the engine does not give is an
    /// `IllegalMove`.
    pub open spec fn played(self, index: int, now: u64) -> Result<GameModel, GameError> {
        let fen = self.position.fen;
        match (notation_of(fen, index), position_after(fen, index)) {
            (Some(san), Some(next)) => match status_in(next.fen) {
                Some(status) => Ok(self.recorded(san, next, status, now)),
                None => Err(GameError::IllegalMove),
            },
            _ => Err(GameError::IllegalMove),
        }
    }

    /// The game after `actor` moves with the text `notation`, or why it stays
    /// as it is. A finished game takes no move. Where the seat of the side to
    /// move is taken, only its occupant moves; where it is free, anybody may.
    pub open spec fn make_move(self, actor: Seq<u8>, notation: Seq<char>, now: u64) -> Result<
        GameModel,
        GameError,
    > {
        if self.status.is_terminal() {
            Err(GameError::GameFinished)
        } else if !self.may_move(actor) {
            Err(GameError::WrongTurn)
        } else {
            match resolved(self.position.fen, notation) {
                Ok(index) => self.played(index, now),
                Err(e) => Err(e),
            }
        }
    }

    /// The game after `actor` resigns, or why it stays as it is. The other
    /// side wins.
    pub open spec fn resign(self, actor: Seq<u8>, now: u64) -> Result<GameModel, GameError> {
        if self.status.is_terminal() {
            Err(GameError::GameFinished)
        } else if self.white.held_by(actor) {
            Ok(
                GameModel {
                    status: StatusModel::Resigned { winner_white: false },
                    updated_ns: now,
                    ..self
                },
            )
        } else if self.black.held_by(actor) {
            Ok(
                GameModel {
                    status: StatusModel::Resigned { winner_white: true },
                    updated_ns: now,
                    ..self
                },
            )
        } else {
            Err(GameError::NotSeated)
        }
    }
}

/// What is owed for a move at a place where the position has one: it goes
/// through exactly where the engine accepts the position that the move leads
/// to.
pub open spec fn move_goes_through(fen: Seq<char>, index: int, went: bool) -> bool {
    &&& has_move_at(fen, index)
    &&& position_after(fen, index) is Some
    &&& notation_of(fen, index) is Some
    &&& went <==> accepted(position_after(fen, index)->Some_0.fen)
}

/// What a played move does to the turn: the side that the engine had to move
/// before is not the side to move after, so where the position before named
/// the engine's side, the turn has passed to the other side.
pub open spec fn turn_passed(before: PositionModel, after: PositionModel) -> bool {
    &&& white_to_move_of(before.fen) == Some(!after.white_to_move)
    &&& after.agrees()
    &&& before.agrees() ==> after.white_to_move == !before.white_to_move
}

/// Whether an operation did what the model says: on success the game is the
/// model's new value and the snapshot shows it; on failure the error is the
/// model's and the game is untouched.
pub open spec fn carried_out(
    before: GameInternal,
    after: GameInternal,
    expected: Result<GameModel, GameError>,
    outcome: Result<GameView, GameError>,
) -> bool {
    match expected {
        Ok(model) => {
            &&& after@ == model
            &&& outcome matches Ok(view)
            &&& view@ == model.projection()
        },
        Err(e) => {
            &&& after == before
            &&& outcome matches Err(err)
            &&& err == e
        },
    }
}

impl GameInternal {
    /// A new game with the given id, whose seats open to the secrets with the
    /// given digests.
    pub fn new(id: u64, white_hash: [u8; 32], black_hash: [u8; 32], now: u64) -> (game: GameInternal)
        ensures
            game@ == GameModel::fresh(id, white_hash@, black_hash@, now),
            game@.position.agrees(),
    {
        let game = GameInternal {
            id,
            position: initial_position(),
            moves_san: Vec::new(),
            white: Seat::unclaimed(white_hash),
            black: Seat::unclaimed(black_hash),
            status: GameStatus::Ongoing,
            created_ns: now,
            updated_ns: now,
        };
        assert(texts(game.moves_san@) =~= Seq::empty());
        game
    }

    /// The snapshot shown to callers. It never holds a seat's digest.
    pub fn to_view(&self) -> (view: GameView)
        ensures
            view@ == self@.projection(),
    {
        GameView {
            id: self.id,
            white: self.white.occupant(),
            black: self.black.occupant(),
            fen: self.position.fen.clone(),
            moves_san: copy_texts(&self.moves_san),
            status: self.status.duplicate(),
            created_ns: self.created_ns,
            updated_ns: self.updated_ns,
            to_move_white: self.position.white_to_move,
            white_principal: self.white.occupant(),
            black_principal: self.black.occupant(),
        }
    }

    /// The part `actor` plays in the game.
    pub fn role_of(&self, actor: &Actor) -> (role: PlayerRole)
        ensures
            role == self@.role_of(actor@),
    {
        if self.white.is_held_by(actor) {
            PlayerRole::White
        } else if self.black.is_held_by(actor) {
            PlayerRole::Black
        } else {
            PlayerRole::Spectator
        }
    }

    /// Seats `actor` with a one-time secret.
    pub fn join(&mut self, secret: &str, actor: &Actor, now: u64) -> (outcome: Result<
        GameView,
        GameError,
    >)
        ensures
            carried_out(*old(self), *final(self), old(self)@.join(secret@, actor@, now), outcome),
    {
        if self.white.is_held_by(actor) || self.black.is_held_by(actor) {
            return Err(GameError::AlreadySeated);
        }
        if self.white.claim(secret, actor.duplicate()).is_ok() {
            self.updated_ns = now;
            return Ok(self.to_view());
        }
        if self.black.claim(secret, actor.duplicate()).is_ok() {
            self.updated_ns = now;
            return Ok(self.to_view());
        }
        Err(GameError::InvalidToken)
    }

    /// Plays the move that `notation` names for `actor`. A text that resolves
    /// to a legal move is played unless the engine refuses the position the
    /// move leads to; a played move hands the turn to the other side.
    pub fn make_move(&mut self, actor: &Actor, notation: &str, now: u64) -> (outcome: Result<
        GameView,
        GameError,
    >)
        ensures
            carried_out(
                *old(self),
                *final(self),
                old(self)@.make_move(actor@, notation@, now),
                outcome,
            ),
            old(self)@.may_move(actor@) ==> (resolved(old(self)@.position.fen, notation@) matches Ok(
                index,
            ) ==> move_goes_through(old(self)@.position.fen, index, outcome is Ok)),
            outcome is Ok ==> turn_passed(old(self)@.position, final(self)@.position),
    {
        if !self.status.is_ongoing() {
            return Err(GameError::GameFinished);
        }
        let blocked = if self.position.white_to_move {
            self.white.occupant().is_some() && !self.white.is_held_by(actor)
        } else {
            self.black.occupant().is_some() && !self.black.is_held_by(actor)
        };
        if blocked {
            return Err(GameError::WrongTurn);
        }
        let index = match parse_move_with_autopromo(self.position.fen.as_str(), notation) {
            Ok(index) => index,
            Err(e) => return Err(e),
        };
        self.commit(index, now)
    }

    /// Plays the legal move at place `index`: asks the engine for its
    /// notation, for the position it leads to and for that position's status,
    /// and only then changes the game. A move at a place below the number of
    /// legal moves is played unless the engine refuses the position it leads
    /// to.
    pub fn commit(&mut self, index: usize, now: u64) -> (outcome: Result<GameView, GameError>)
        ensures
            carried_out(*old(self), *final(self), old(self)@.played(index as int, now), outcome),
            has_move_at(old(self)@.position.fen, index as int) ==> move_goes_through(
                old(self)@.position.fen,
                index as int,
                outcome is Ok,
            ),
            outcome is Ok ==> has_move_at(old(self)@.position.fen, index as int) && turn_passed(
                old(self)@.position,
                final(self)@.position,
            ),
    {
        let san = match notation(self.position.fen.as_str(), index) {
            Some(san) => san,
            None => return Err(GameError::IllegalMove),
        };
        let next = match play(self.position.fen.as_str(), index) {
            Some(next) => next,
            None => return Err(GameError::IllegalMove),
        };
        let status = match compute_status(next.fen.as_str()) {
            Some(status) => status,
            None => return Err(GameError::IllegalMove),
        };
        Ok(self.record(san, next, status, now))
    }

    /// Records a played move: appends its notation, takes over the position
    /// it led to and that position's status, and returns the new snapshot.
    pub fn record(&mut self, san: String, next: Position, status: GameStatus, now: u64) -> (view:
        GameView)
        ensures
            final(self)@ == old(self)@.recorded(san@, next@, status@, now),
            view@ == final(self)@.projection(),
    {
        let ghost before = self.moves_san@;
        self.position = next;
        self.moves_san.push(san);
        self.status = status;
        self.updated_ns = now;
        assert(texts(self.moves_san@) =~= texts(before).push(san@));
        self.to_view()
    }

    /// Gives the game up for `actor`.
    pub fn resign(&mut self, actor: &Actor, now: u64) -> (outcome: Result<GameView, GameError>)
        ensures
            carried_out(*old(self), *final(self), old(self)@.resign(actor@, now), outcome),
    {
        if !self.status.is_ongoing() {
            return Err(GameError::GameFinished);
        }
        let winner_white = if self.white.is_held_by(actor) {
            false
        } else if self.black.is_held_by(actor) {
            true
        } else {
            return Err(GameError::NotSeated);
        };
        self.status = GameStatus::Resigned { winner_white };
        self.updated_ns = now;
        Ok(self.to_view())
    }
}

} // verus!
