//! The registry: every game of the process, keyed by its id.
//!
//! Ids are handed out in strictly increasing order from 1 and never reused;
//! no game is ever removed.

use std::collections::BTreeMap;
use vstd::prelude::*;
use crate::error::GameError;
use crate::pgn::{export_pgn, pgn_text};
use crate::resolve::resolved;
use crate::session::{
    GameInternal, GameModel, GameView, ViewModel, move_goes_through, turn_passed,
};
use crate::status::PlayerRole;
use crate::token::{Actor, Seat, base64_url, encode_secret, hash_token, token_digest};

verus! {

broadcast use {vstd::std_specs::btree::group_btree_axioms, vstd::laws_cmp::group_laws_cmp};

/// All games and the id that the next one gets.
pub struct State {
    next_id: u64,
    games: BTreeMap<u64, GameInternal>,
}

/// Mathematical value of a [`State`].
pub struct RegistryModel {
    pub next_id: u64,
    pub games: Map<u64, GameModel>,
}

/// The snapshots that a list of views holds.
pub open spec fn snapshots(list: Seq<GameView>) -> Seq<ViewModel> {
    list.map_values(|v: GameView| v@)
}

impl RegistryModel {
    /// The registry holds exactly the games with the ids handed out so far,
    /// each under its own id.
    pub open spec fn wf(self) -> bool {
        &&& self.next_id >= 1
        &&& forall|id: u64| #[trigger] self.games.contains_key(id) <==> 1 <= id < self.next_id
        &&& forall|id: u64| self.games.contains_key(id) ==> (#[trigger] self.games[id]).id == id
    }

    /// How many games there are.
    pub open spec fn count(self) -> int {
        self.next_id - 1
    }

    /// The game with the given id, if there is one.
    pub open spec fn game(self, id: u64) -> Option<GameModel> {
        if self.games.contains_key(id) {
            Some(self.games[id])
        } else {
            None
        }
    }

    /// The registry with the game `id` replaced.
    pub open spec fn put(self, id: u64, game: GameModel) -> RegistryModel {
        RegistryModel { games: self.games.insert(id, game), ..self }
    }

    /// The registry after a game is created with the given seat digests.
    pub open spec fn created(self, white_hash: Seq<u8>, black_hash: Seq<u8>, now: u64) -> RegistryModel {
        RegistryModel {
            next_id: (self.next_id + 1) as u64,
            games: self.games.insert(
                self.next_id,
                GameModel::fresh(self.next_id, white_hash, black_hash, now),
            ),
        }
    }

    /// What an operation on game `id` is to do, given what it does to a game:
    /// `NotFound` where there is no such game.
    pub open spec fn on_game(
        self,
        id: u64,
        step: spec_fn(GameModel) -> Result<GameModel, GameError>,
    ) -> Result<GameModel, GameError> {
        match self.game(id) {
            Some(game) => step(game),
            None => Err(GameError::NotFound),
        }
    }

    /// The id of the game at place `place` when the newest comes first.
    pub open spec fn newest(self, place: int) -> u64 {
        (self.count() - place) as u64
    }

    /// The snapshots of up to `limit` games, newest first, after skipping the
    /// `offset` newest.
    pub open spec fn recent(self, offset: u64, limit: u32) -> Seq<ViewModel> {
        let left = if offset < self.count() {
            self.count() - offset
        } else {
            0
        };
        let n = if limit < left {
            limit as int
        } else {
            left
        };
        Seq::new(n as nat, |j: int| self.games[self.newest(offset + j)].projection())
    }
}

/// Whether an operation on one game did what is expected of it: on success
/// that game is replaced and its snapshot returned, on failure nothing
/// changes.
pub open spec fn served(
    before: RegistryModel,
    after: RegistryModel,
    id: u64,
    expected: Result<GameModel, GameError>,
    outcome: Result<GameView, GameError>,
) -> bool {
    match expected {
        Ok(game) => {
            &&& after == before.put(id, game)
            &&& outcome matches Ok(view)
            &&& view@ == game.projection()
        },
        Err(e) => {
            &&& after == before
            &&& outcome matches Err(err)
            &&& err == e
        },
    }
}

/// Taking a game out and putting a game back under the same id replaces that
/// game and touches no other; putting the same game back changes nothing.
proof fn lemma_put_back(before: State, without: State, after: State, id: u64, game: GameInternal)
    requires
        before.games@.contains_key(id),
        without.next_id == before.next_id,
        without.games@ == before.games@.remove(id),
        after.next_id == without.next_id,
        after.games@ == without.games@.insert(id, game),
    ensures
        after@ == before@.put(id, game@),
        game == before.games@[id] ==> after@ == before@,
{
    assert(after@.games =~= before@.games.insert(id, game@));
    if game == before.games@[id] {
        assert(after@.games =~= before@.games);
    }
}

impl View for State {
    type V = RegistryModel;

    closed spec fn view(&self) -> RegistryModel {
        RegistryModel {
            next_id: self.next_id,
            games: self.games@.map_values(|g: GameInternal| g@),
        }
    }
}

impl State {
    /// The invariant of the registry.
    pub open spec fn wf(&self) -> bool {
        self@.wf()
    }

    /// A registry without games; the first game gets the id 1.
    pub fn new() -> (state: State)
        ensures
            state.wf(),
            state@.next_id == 1,
            state@.games == Map::<u64, GameModel>::empty(),
    {
        let state = State { next_id: 1, games: BTreeMap::new() };
        assert(state@.games =~= Map::<u64, GameModel>::empty());
        state
    }

    /// The id that the next game gets.
    pub fn next_id(&self) -> (id: u64)
        ensures
            id == self@.next_id,
    {
        self.next_id
    }

    /// Creates a game. The two secrets are made from the random bytes given,
    /// only their digests are kept, and the secrets are returned this once,
    /// with the new game's id.
    pub fn create_game(&mut self, now: u64, white_random: &[u8], black_random: &[u8]) -> (created: (
        u64,
        String,
        String,
    ))
        requires
            old(self).wf(),
            old(self)@.next_id < u64::MAX,
        ensures
            final(self).wf(),
            created.0 == old(self)@.next_id,
            created.1@ == base64_url(white_random@),
            created.2@ == base64_url(black_random@),
            final(self)@ == old(self)@.created(
                token_digest(created.1@),
                token_digest(created.2@),
                now,
            ),
    {
        let white_token = encode_secret(white_random);
        let black_token = encode_secret(black_random);
        let id = self.next_id;
        let game = GameInternal::new(
            id,
            hash_token(white_token.as_str()),
            hash_token(black_token.as_str()),
            now,
        );
        self.next_id = id + 1;
        self.games.insert(id, game);
        assert(final(self)@.games =~= old(self)@.games.insert(id, game@));
        (id, white_token, black_token)
    }

    /// The snapshot of a game, if there is one with the id.
    pub fn get_game(&self, id: u64) -> (view: Option<GameView>)
        requires
            self.wf(),
        ensures
            match self@.game(id) {
                Some(game) => view matches Some(v) && v@ == game.projection(),
                None => view is None,
            },
    {
        match self.games.get(&id) {
            Some(game) => Some(game.to_view()),
            None => None,
        }
    }

    /// Up to `limit` snapshots, newest game first, after skipping the
    /// `offset_desc` newest games. Past the end the list is empty.
    pub fn list_recent(&self, offset_desc: u64, limit: u32) -> (list: Vec<GameView>)
        requires
            self.wf(),
        ensures
            snapshots(list@) == self@.recent(offset_desc, limit),
    {
        let mut list: Vec<GameView> = Vec::new();
        let count = self.next_id - 1;
        if offset_desc >= count {
            assert(snapshots(list@) =~= self@.recent(offset_desc, limit));
            return list;
        }
        let mut id = count - offset_desc;
        let mut taken: u32 = 0;
        while id >= 1 && taken < limit
            invariant
                self.wf(),
                count == self@.count(),
                offset_desc < count,
                id + taken == count - offset_desc,
                taken <= limit,
                list.len() == taken,
                forall|j: int|
                    0 <= j < taken ==> (#[trigger] list@[j])@ == self@.games[self@.newest(
                        offset_desc + j,
                    )].projection(),
            decreases id,
        {
            match self.games.get(&id) {
                Some(game) => {
                    list.push(game.to_view());
                },
                None => {
                    proof {
                        assert(self@.games.contains_key(id));
                        assert(false);
                    }
                },
            }
            id -= 1;
            taken += 1;
        }
        assert(snapshots(list@) =~= self@.recent(offset_desc, limit));
        list
    }

    /// The part `actor` plays in a game; a spectator where there is no such
    /// game.
    pub fn my_role(&self, game_id: u64, actor: &Actor) -> (role: PlayerRole)
        requires
            self.wf(),
        ensures
            role == match self@.game(game_id) {
                Some(game) => game.role_of(actor@),
                None => PlayerRole::Spectator,
            },
    {
        match self.games.get(&game_id) {
            Some(game) => game.role_of(actor),
            None => PlayerRole::Spectator,
        }
    }

    /// The two seats of a game as they are kept, digests included. For
    /// inspection while testing only.
    pub fn debug_game(&self, game_id: u64) -> (seats: Option<(Seat, Seat)>)
        requires
            self.wf(),
        ensures
            match self@.game(game_id) {
                Some(game) => seats matches Some(pair) && pair.0@ == game.white && pair.1@
                    == game.black,
                None => seats is None,
            },
    {
        match self.games.get(&game_id) {
            Some(game) => Some((game.white.duplicate(), game.black.duplicate())),
            None => None,
        }
    }

    /// The PGN record of a game.
    pub fn export_pgn(&self, game_id: u64) -> (pgn: Result<String, GameError>)
        requires
            self.wf(),
        ensures
            match self@.game(game_id) {
                Some(game) => pgn matches Ok(text) && text@ == pgn_text(game_id, game.moves_san),
                None => pgn matches Err(e) && e == GameError::NotFound,
            },
    {
        match self.games.get(&game_id) {
            Some(game) => Ok(export_pgn(game_id, &game.moves_san)),
            None => Err(GameError::NotFound),
        }
    }

    /// Takes a game out of the map, to be put back by [`State::put`].
    fn take(&mut self, id: u64) -> (game: Option<GameInternal>)
        ensures
            final(self).next_id == old(self).next_id,
            match game {
                Some(g) => {
                    &&& old(self).games@.contains_key(id)
                    &&& g == old(self).games@[id]
                    &&& final(self).games@ == old(self).games@.remove(id)
                },
                None => !old(self).games@.contains_key(id) && final(self).games@ == old(
                    self,
                ).games@,
            },
    {
        self.games.remove(&id)
    }

    /// Puts a game into the map under its id.
    fn put(&mut self, id: u64, game: GameInternal)
        ensures
            final(self).next_id == old(self).next_id,
            final(self).games@ == old(self).games@.insert(id, game),
    {
        self.games.insert(id, game);
    }

    /// Seats `actor` in a game with a one-time secret.
    pub fn join_by_token(&mut self, game_id: u64, token: &str, actor: &Actor, now: u64) -> (outcome:
        Result<GameView, GameError>)
        requires
            old(self).wf(),
        ensures
            final(self).wf(),
            served(
                old(self)@,
                final(self)@,
                game_id,
                old(self)@.on_game(game_id, |g: GameModel| g.join(token@, actor@, now)),
                outcome,
            ),
    {
        let mut game = match self.take(game_id) {
            Some(game) => game,
            None => return Err(GameError::NotFound),
        };
        let ghost without = *self;
        let outcome = game.join(token, actor, now);
        self.put(game_id, game);
        proof {
            lemma_put_back(*old(self), without, *self, game_id, game);
        }
        outcome
    }

    /// Plays the move that `notation` names for `actor` in a game. A text that
    /// resolves to a legal move is played unless the engine refuses the
    /// position the move leads to.
    pub fn make_move(&mut self, game_id: u64, actor: &Actor, notation: &str, now: u64) -> (outcome:
        Result<GameView, GameError>)
        requires
            old(self).wf(),
        ensures
            final(self).wf(),
            served(
                old(self)@,
                final(self)@,
                game_id,
                old(self)@.on_game(game_id, |g: GameModel| g.make_move(actor@, notation@, now)),
                outcome,
            ),
            old(self)@.game(game_id) matches Some(game) ==> {
                &&& game.may_move(actor@) ==> (resolved(game.position.fen, notation@) matches Ok(
                    index,
                ) ==> move_goes_through(game.position.fen, index, outcome is Ok))
                &&& outcome is Ok ==> turn_passed(
                    game.position,
                    final(self)@.games[game_id].position,
                )
            },
    {
        let mut game = match self.take(game_id) {
            Some(game) => game,
            None => return Err(GameError::NotFound),
        };
        let ghost without = *self;
        let outcome = game.make_move(actor, notation, now);
        self.put(game_id, game);
        proof {
            lemma_put_back(*old(self), without, *self, game_id, game);
        }
        outcome
    }

    /// Gives a game up for `actor`.
    pub fn resign(&mut self, game_id: u64, actor: &Actor, now: u64) -> (outcome: Result<
        GameView,
        GameError,
    >)
        requires
            old(self).wf(),
        ensures
            final(self).wf(),
            served(
                old(self)@,
                final(self)@,
                game_id,
                old(self)@.on_game(game_id, |g: GameModel| g.resign(actor@, now)),
                outcome,
            ),
    {
        let mut game = match self.take(game_id) {
            Some(game) => game,
            None => return Err(GameError::NotFound),
        };
        let ghost without = *self;
        let outcome = game.resign(actor, now);
        self.put(game_id, game);
        proof {
            lemma_put_back(*old(self), without, *self, game_id, game);
        }
        outcome
    }
}

} // verus!
