//! What holds of a game over its whole life, whatever callers do to it.

use vstd::prelude::*;
use crate::engine::{PositionModel, position_after};
use crate::error::GameError;
use crate::registry::{RegistryModel, served};
use crate::resolve::resolved;
use crate::session::{GameModel, GameView};
use crate::token::{SeatModel, token_digest};

verus! {

/// Something a caller asks of a game.
pub enum Request {
    Join { secret: Seq<char>, actor: Seq<u8> },
    Move { actor: Seq<u8>, notation: Seq<char> },
    Resign { actor: Seq<u8> },
}

/// A request and the time at which it arrives.
pub struct Call {
    pub request: Request,
    pub now: u64,
}

/// What a request does to a game: the new game, or the error.
pub open spec fn answer(game: GameModel, call: Call) -> Result<GameModel, GameError> {
    match call.request {
        Request::Join { secret, actor } => game.join(secret, actor, call.now),
        Request::Move { actor, notation } => game.make_move(actor, notation, call.now),
        Request::Resign { actor } => game.resign(actor, call.now),
    }
}

/// The game after a request: changed where the request succeeds, as it was
/// where it fails.
pub open spec fn step(game: GameModel, call: Call) -> GameModel {
    match answer(game, call) {
        Ok(next) => next,
        Err(_) => game,
    }
}

/// The game after a series of requests.
pub open spec fn run(game: GameModel, calls: Seq<Call>) -> GameModel
    decreases calls.len(),
{
    if calls.len() == 0 {
        game
    } else {
        step(run(game, calls.drop_last()), calls.last())
    }
}

/// Whether every request of a series succeeds, each on the game that the
/// requests before it left.
pub open spec fn all_succeed(game: GameModel, calls: Seq<Call>) -> bool
    decreases calls.len(),
{
    calls.len() == 0 || (all_succeed(game, calls.drop_last()) && answer(
        run(game, calls.drop_last()),
        calls.last(),
    ) is Ok)
}

/// Whether every request of a series is a move.
pub open spec fn all_moves(calls: Seq<Call>) -> bool {
    forall|i: int| 0 <= i < calls.len() ==> (#[trigger] calls[i]).request is Move
}

/// The position reached from `start` by playing, one after the other, the
/// moves that the requests name, each resolved in the position before it;
/// `None` where one of them cannot be played.
pub open spec fn replay(start: PositionModel, calls: Seq<Call>) -> Option<PositionModel>
    decreases calls.len(),
{
    if calls.len() == 0 {
        Some(start)
    } else {
        match (replay(start, calls.drop_last()), calls.last().request) {
            (Some(before), Request::Move { notation, .. }) => match resolved(before.fen, notation) {
                Ok(index) => position_after(before.fen, index),
                Err(_) => None,
            },
            _ => None,
        }
    }
}

/// A seat that no secret with the given digest opens any more: it is taken,
/// or it waits for another secret.
pub open spec fn closed_to(seat: SeatModel, digest: Seq<u8>) -> bool {
    match seat {
        SeatModel::Claimed { .. } => true,
        SeatModel::Unclaimed { hash } => hash != digest,
    }
}

/// After a series of successful moves the history has grown by one notation
/// per move, and the position is the one that playing the same moves from the
/// position at the start leads to.
pub proof fn lemma_moves_recorded(game: GameModel, calls: Seq<Call>)
    requires
        all_moves(calls),
        all_succeed(game, calls),
    ensures
        run(game, calls).moves_san.len() == game.moves_san.len() + calls.len(),
        replay(game.position, calls) == Some(run(game, calls).position),
    decreases calls.len(),
{
    if calls.len() > 0 {
        let earlier = calls.drop_last();
        assert(all_moves(earlier)) by {
            assert forall|i: int| 0 <= i < earlier.len() implies (#[trigger] earlier[i]).request
                is Move by {
                assert(earlier[i] == calls[i]);
            }
        }
        lemma_moves_recorded(game, earlier);
        assert(calls.last() == calls[calls.len() - 1]);
    }
}

/// A game that starts from the initial position with an empty history has,
/// after `n` successful moves, exactly `n` notations in its history.
pub proof fn lemma_history_counts_plies(game: GameModel, calls: Seq<Call>)
    requires
        game.moves_san.len() == 0,
        all_moves(calls),
        all_succeed(game, calls),
    ensures
        run(game, calls).moves_san.len() == calls.len(),
        replay(game.position, calls) == Some(run(game, calls).position),
{
    lemma_moves_recorded(game, calls);
}

/// No request changes a seat that is taken: whoever sits, sits for good, so
/// two actors never both come to hold one seat.
pub proof fn lemma_seat_is_kept(game: GameModel, calls: Seq<Call>)
    ensures
        game.white is Claimed ==> run(game, calls).white == game.white,
        game.black is Claimed ==> run(game, calls).black == game.black,
    decreases calls.len(),
{
    if calls.len() > 0 {
        lemma_seat_is_kept(game, calls.drop_last());
    }
}

/// A request leaves each seat as it was or takes it for the actor who joined.
pub proof fn lemma_seat_changes_only_by_claim(game: GameModel, call: Call)
    ensures
        step(game, call).white != game.white ==> game.white is Unclaimed && call.request is Join
            && step(game, call).white == (SeatModel::Claimed { actor: call.request->Join_actor }),
        step(game, call).black != game.black ==> game.black is Unclaimed && call.request is Join
            && step(game, call).black == (SeatModel::Claimed { actor: call.request->Join_actor }),
{
}

/// Once a game is over, every move and every resignation is refused with
/// `GameFinished`.
pub proof fn lemma_finished_refuses(game: GameModel, actor: Seq<u8>, notation: Seq<char>, now: u64)
    requires
        game.status.is_terminal(),
    ensures
        game.make_move(actor, notation, now) == Err::<GameModel, GameError>(GameError::GameFinished),
        game.resign(actor, now) == Err::<GameModel, GameError>(GameError::GameFinished),
{
}

/// Once a game is over, no series of requests changes its status, its
/// position or its history.
pub proof fn lemma_finished_is_final(game: GameModel, calls: Seq<Call>)
    requires
        game.status.is_terminal(),
    ensures
        run(game, calls).status == game.status,
        run(game, calls).position == game.position,
        run(game, calls).moves_san == game.moves_san,
    decreases calls.len(),
{
    if calls.len() > 0 {
        lemma_finished_is_final(game, calls.drop_last());
    }
}

/// A seat that a digest does not open stays closed to it whatever is asked of
/// the game.
pub proof fn lemma_closed_stays_closed(game: GameModel, calls: Seq<Call>, digest: Seq<u8>)
    ensures
        closed_to(game.white, digest) ==> closed_to(run(game, calls).white, digest),
        closed_to(game.black, digest) ==> closed_to(run(game, calls).black, digest),
    decreases calls.len(),
{
    if calls.len() > 0 {
        lemma_closed_stays_closed(game, calls.drop_last(), digest);
    }
}

/// A secret opens a seat once. After a join with it has succeeded, and
/// whatever was asked of the game since, a join with the same secret fails,
/// with `InvalidToken` for an actor who holds no seat. This needs the two
/// seats not to wait for the same secret.
pub proof fn lemma_secret_opens_once(
    game: GameModel,
    secret: Seq<char>,
    first: Seq<u8>,
    now: u64,
    calls: Seq<Call>,
    second: Seq<u8>,
    later: u64,
)
    requires
        game.join(secret, first, now) is Ok,
        !(game.white is Unclaimed && game.black is Unclaimed && game.white->hash
            == game.black->hash),
    ensures
        ({
            let joined = game.join(secret, first, now)->Ok_0;
            let current = run(joined, calls);
            &&& current.join(secret, second, later) is Err
            &&& !current.seated(second) ==> current.join(secret, second, later) == Err::<
                GameModel,
                GameError,
            >(GameError::InvalidToken)
        }),
{
    let joined = game.join(secret, first, now)->Ok_0;
    let digest = token_digest(secret);
    assert(closed_to(joined.white, digest));
    assert(closed_to(joined.black, digest));
    lemma_closed_stays_closed(joined, calls, digest);
}

/// Something a caller asks of the registry: a new game, or a request to the
/// game with an id.
pub enum Order {
    Create { white_hash: Seq<u8>, black_hash: Seq<u8>, now: u64 },
    On { id: u64, call: Call },
}

/// The registry after an order. A request that fails, a request to a game
/// that does not exist and a creation when the ids are used up change
/// nothing.
pub open spec fn serve(registry: RegistryModel, order: Order) -> RegistryModel {
    match order {
        Order::Create { white_hash, black_hash, now } => if registry.next_id < u64::MAX {
            registry.created(white_hash, black_hash, now)
        } else {
            registry
        },
        Order::On { id, call } => match registry.game(id) {
            Some(game) => match answer(game, call) {
                Ok(next) => registry.put(id, next),
                Err(_) => registry,
            },
            None => registry,
        },
    }
}

/// The registry after a series of orders.
pub open spec fn serve_all(registry: RegistryModel, orders: Seq<Order>) -> RegistryModel
    decreases orders.len(),
{
    if orders.len() == 0 {
        registry
    } else {
        serve(serve_all(registry, orders.drop_last()), orders.last())
    }
}

/// The requests that a series of orders addresses to the game `id`, in order.
pub open spec fn calls_for(orders: Seq<Order>, id: u64) -> Seq<Call>
    decreases orders.len(),
{
    if orders.len() == 0 {
        Seq::empty()
    } else {
        let earlier = calls_for(orders.drop_last(), id);
        match orders.last() {
            Order::On { id: to, call } => if to == id {
                earlier.push(call)
            } else {
                earlier
            },
            Order::Create { .. } => earlier,
        }
    }
}

/// An operation that did to the registry what a request asks of the game
/// `id` has served that order.
pub proof fn lemma_served_order(
    before: RegistryModel,
    after: RegistryModel,
    id: u64,
    call: Call,
    outcome: Result<GameView, GameError>,
)
    requires
        served(before, after, id, before.on_game(id, |g: GameModel| answer(g, call)), outcome),
    ensures
        after == serve(before, Order::On { id, call }),
{
}

/// A request keeps the id of the game it is made to.
pub proof fn lemma_id_is_kept(game: GameModel, call: Call)
    ensures
        step(game, call).id == game.id,
{
}

/// Whatever is asked of the registry, it stays well formed, no game leaves
/// it, ids are handed out in rising order, and each game is what the requests
/// addressed to it, and only they, have made of it.
pub proof fn lemma_games_live_apart(registry: RegistryModel, orders: Seq<Order>, id: u64)
    requires
        registry.wf(),
        registry.games.contains_key(id),
    ensures
        serve_all(registry, orders).wf(),
        serve_all(registry, orders).next_id >= registry.next_id,
        serve_all(registry, orders).games.contains_key(id),
        serve_all(registry, orders).games[id] == run(registry.games[id], calls_for(orders, id)),
    decreases orders.len(),
{
    if orders.len() > 0 {
        let earlier = orders.drop_last();
        lemma_games_live_apart(registry, earlier, id);
        let before = serve_all(registry, earlier);
        match orders.last() {
            Order::On { id: to, call } => {
                if before.games.contains_key(to) {
                    lemma_id_is_kept(before.games[to], call);
                }
                if to == id {
                    assert(calls_for(earlier, id).push(call).drop_last() =~= calls_for(earlier, id));
                }
            },
            Order::Create { .. } => {},
        }
    }
}

/// In the registry too a secret opens a seat once: after a join with it has
/// succeeded in a game, and whatever has been asked of the registry since, a
/// join with the same secret in that game fails and changes nothing, with
/// `InvalidToken` for an actor who holds no seat of the game. This needs the
/// game's two seats not to wait for the same secret.
pub proof fn lemma_registry_secret_opens_once(
    registry: RegistryModel,
    id: u64,
    secret: Seq<char>,
    first: Seq<u8>,
    now: u64,
    orders: Seq<Order>,
    second: Seq<u8>,
    later: u64,
)
    requires
        registry.wf(),
        registry.games.contains_key(id),
        registry.games[id].join(secret, first, now) is Ok,
        !(registry.games[id].white is Unclaimed && registry.games[id].black is Unclaimed
            && registry.games[id].white->hash == registry.games[id].black->hash),
    ensures
        ({
            let joined = registry.put(id, registry.games[id].join(secret, first, now)->Ok_0);
            let current = serve_all(joined, orders);
            let again = Order::On {
                id,
                call: Call { request: Request::Join { secret, actor: second }, now: later },
            };
            &&& current.games.contains_key(id)
            &&& current.games[id].join(secret, second, later) is Err
            &&& !current.games[id].seated(second) ==> current.games[id].join(secret, second, later)
                == Err::<GameModel, GameError>(GameError::InvalidToken)
            &&& serve(current, again) == current
        }),
{
    let game = registry.games[id];
    let joined = registry.put(id, game.join(secret, first, now)->Ok_0);
    assert(joined.wf());
    lemma_games_live_apart(joined, orders, id);
    lemma_secret_opens_once(game, secret, first, now, calls_for(orders, id), second, later);
}

/// In the registry too a taken seat stays with its occupant and a finished
/// game stays as it ended, whatever is asked of the registry.
pub proof fn lemma_registry_keeps_seats_and_results(
    registry: RegistryModel,
    orders: Seq<Order>,
    id: u64,
)
    requires
        registry.wf(),
        registry.games.contains_key(id),
    ensures
        ({
            let before = registry.games[id];
            let after = serve_all(registry, orders).games[id];
            &&& before.white is Claimed ==> after.white == before.white
            &&& before.black is Claimed ==> after.black == before.black
            &&& before.status.is_terminal() ==> after.status == before.status && after.position
                == before.position && after.moves_san == before.moves_san
        }),
{
    lemma_games_live_apart(registry, orders, id);
    lemma_seat_is_kept(registry.games[id], calls_for(orders, id));
    if registry.games[id].status.is_terminal() {
        lemma_finished_is_final(registry.games[id], calls_for(orders, id));
    }
}

/// The list of recent games holds the newest games first: after skipping
/// `offset` of them, the game at place `j` is the one with the `j`-th largest
/// id left, so ids fall by one from place to place; the list is as long as
/// `limit` and the number of games left allow, and empty past the end.
pub proof fn lemma_recent_is_newest_first(registry: RegistryModel, offset: u64, limit: u32)
    requires
        registry.wf(),
    ensures
        offset >= registry.count() ==> registry.recent(offset, limit).len() == 0,
        offset < registry.count() ==> registry.recent(offset, limit).len() == if limit
            < registry.count() - offset {
            limit as int
        } else {
            registry.count() - offset
        },
        forall|j: int|
            0 <= j < registry.recent(offset, limit).len() ==> {
                &&& registry.games.contains_key(registry.newest(offset + j))
                &&& (#[trigger] registry.recent(offset, limit)[j]) == registry.games[registry.newest(
                    offset + j,
                )].projection()
                &&& registry.recent(offset, limit)[j].id == registry.count() - offset - j
            },
{
    assert forall|j: int| 0 <= j < registry.recent(offset, limit).len() implies {
        &&& registry.games.contains_key(registry.newest(offset + j))
        &&& (#[trigger] registry.recent(offset, limit)[j]) == registry.games[registry.newest(
            offset + j,
        )].projection()
        &&& registry.recent(offset, limit)[j].id == registry.count() - offset - j
    } by {
        let id = registry.newest(offset + j);
        assert(1 <= id < registry.next_id);
        assert(registry.games.contains_key(id));
        assert(registry.games[id].id == id);
    }
}

} // verus!
