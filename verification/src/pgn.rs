//! A minimal game record in PGN: a header that names the game, placeholder
//! player tags, and the moves as they were recorded.

use vstd::prelude::*;
use vstd::string::StringExecFns;
use crate::session::texts;
use crate::text::{decimal, push_decimal};

verus! {

/// The header of the record of game `id`.
pub open spec fn pgn_header(id: u64) -> Seq<char> {
    "[Event \"IC Chess "@ + decimal(id as nat) + "\"]\n[White \"?\"]\n[Black \"?\"]\n\n"@
}

/// What the ply at place `ply` adds to the move text: White's plies open a
/// numbered pair, Black's plies close it.
pub open spec fn pgn_entry(ply: nat, san: Seq<char>) -> Seq<char> {
    if ply % 2 == 0 {
        decimal(ply / 2 + 1) + ". "@ + san + " "@
    } else {
        san + " "@
    }
}

/// The move text for the first `upto` recorded moves.
pub open spec fn pgn_moves(moves: Seq<Seq<char>>, upto: nat) -> Seq<char>
    decreases upto,
{
    if upto == 0 || upto > moves.len() {
        Seq::empty()
    } else {
        pgn_moves(moves, (upto - 1) as nat) + pgn_entry((upto - 1) as nat, moves[upto - 1])
    }
}

/// The record of game `id` with the given moves.
pub open spec fn pgn_text(id: u64, moves: Seq<Seq<char>>) -> Seq<char> {
    pgn_header(id) + pgn_moves(moves, moves.len())
}

/// Writes the record of a game from its id and its recorded notation. The
/// moves are written as they were stored; no position is consulted.
pub fn export_pgn(id: u64, moves: &Vec<String>) -> (pgn: String)
    ensures
        pgn@ == pgn_text(id, texts(moves@)),
{
    let mut pgn = String::new();
    pgn.append("[Event \"IC Chess ");
    push_decimal(&mut pgn, id);
    pgn.append("\"]\n[White \"?\"]\n[Black \"?\"]\n\n");
    assert(pgn@ =~= pgn_header(id));
    let mut ply: usize = 0;
    while ply < moves.len()
        invariant
            ply <= moves.len(),
            pgn@ == pgn_header(id) + pgn_moves(texts(moves@), ply as nat),
        decreases moves.len() - ply,
    {
        let ghost before = pgn@;
        if ply % 2 == 0 {
            push_decimal(&mut pgn, (ply / 2 + 1) as u64);
            pgn.append(". ");
        }
        pgn.append(moves[ply].as_str());
        pgn.append(" ");
        assert(texts(moves@)[ply as int] == moves@[ply as int]@);
        assert(pgn@ =~= before + pgn_entry(ply as nat, texts(moves@)[ply as int]));
        ply += 1;
        assert(pgn@ =~= pgn_header(id) + pgn_moves(texts(moves@), ply as nat));
    }
    pgn
}

} // verus!
