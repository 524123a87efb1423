//! The parts of the state machine that no policy changes: how a game starts,
//! how a way out of a branch is taken, and who gets the turn next.

use vstd::prelude::*;
use crate::game::board::BoardView;
use crate::game::map::MapDataView;
use crate::game::player::PlayerStateView;
use crate::game::state::{GameStateView, TurnPhase};
use crate::search::first_index;

verus! {

/// The seed that every game starts from.
pub const INITIAL_SEED: u64 = 42;

/// The snapshot that a game on `map` starts from: every player with the
/// starting funds on the first tile of the board, the first player to move.
pub open spec fn init_outcome(players: Seq<(Seq<char>, Seq<char>)>, map: MapDataView) -> GameStateView {
    let start = if map.tiles.len() > 0 {
        map.tiles[0].id
    } else {
        0
    };
    GameStateView {
        players: Seq::new(
            players.len(),
            |i: int|
                PlayerStateView {
                    position: start,
                    ..PlayerStateView::fresh(players[i].0, players[i].1, map.start_money)
                },
        ),
        board: BoardView { tiles: map.tiles },
        current_turn: 0,
        phase: TurnPhase::WaitingForSpin,
        rng_seed: INITIAL_SEED,
        loan_unit: map.loan_unit,
        loan_interest_rate: map.loan_interest_rate,
        careers: map.careers,
        houses_for_sale: map.houses,
    }
}

/// The player who has the turn takes the way out with this index, if the tile
/// has one; either way the turn ends.
pub open spec fn choose_path_outcome(s: GameStateView, path_index: usize) -> GameStateView {
    let moved = match s.board.tile(s.current().position) {
        Some(tile) if path_index < tile.next.len() => s.with_player(
            s.current_turn,
            PlayerStateView { position: tile.next[path_index as int], ..s.current() },
        ),
        _ => s,
    };
    moved.with_phase(TurnPhase::TurnEnd)
}

/// A player who has not retired.
pub open spec fn active(p: PlayerStateView) -> bool {
    !p.retired
}

/// The first of the seats from `from` up to, not including, `to` whose player
/// has not retired.
pub open spec fn first_active(players: Seq<PlayerStateView>, from: int, to: int) -> Option<int> {
    match first_index(players.subrange(from, to), |p: PlayerStateView| active(p)) {
        Some(i) => Some(from + i),
        None => None,
    }
}

/// The seat that gets the turn next: the first player after the one who has
/// it, in turn order and around the table, who has not retired.
pub open spec fn next_turn(s: GameStateView) -> Option<int> {
    match first_active(s.players, s.current_turn + 1, s.players.len() as int) {
        Some(i) => Some(i),
        None => first_active(s.players, 0, s.current_turn + 1),
    }
}

/// The snapshot after the turn is handed on. Where every player has retired it
/// is the snapshot as it was.
pub open spec fn end_turn_outcome(s: GameStateView) -> GameStateView {
    match next_turn(s) {
        Some(i) => GameStateView { current_turn: i, phase: TurnPhase::WaitingForSpin, ..s },
        None => s,
    }
}

/// What the first active seat of a range says of the range.
pub proof fn lemma_first_active(players: Seq<PlayerStateView>, from: int, to: int)
    requires
        0 <= from <= to <= players.len(),
    ensures
        match first_active(players, from, to) {
            Some(i) => from <= i < to && !players[i].retired && forall|j: int|
                from <= j < i ==> (#[trigger] players[j]).retired,
            None => forall|j: int| from <= j < to ==> (#[trigger] players[j]).retired,
        },
{
    let range = players.subrange(from, to);
    let p = |p: PlayerStateView| active(p);
    crate::search::lemma_first_index_holds(range, p);
    match first_index(range, p) {
        Some(i) => {
            assert(range[i] == players[from + i]);
            assert forall|j: int| from <= j < from + i implies (#[trigger] players[j]).retired by {
                assert(!p(range[j - from]));
            }
        },
        None => {
            assert forall|j: int| from <= j < to implies (#[trigger] players[j]).retired by {
                assert(!p(range[j - from]));
            }
        },
    }
}

/// The turn goes to a player who has not retired, and stays where it is
/// exactly when every player has retired.
pub proof fn lemma_next_turn(s: GameStateView)
    requires
        s.wf(),
    ensures
        next_turn(s) is None <==> s.finished(),
        next_turn(s) matches Some(i) ==> 0 <= i < s.players.len() && !s.players[i].retired,
        end_turn_outcome(s).wf(),
        !s.finished() ==> !end_turn_outcome(s).current().retired,
{
    lemma_first_active(s.players, s.current_turn + 1, s.players.len() as int);
    lemma_first_active(s.players, 0, s.current_turn + 1);
    match next_turn(s) {
        Some(i) => {
            if s.finished() {
                assert(s.players[i].retired);
            }
            assert(end_turn_outcome(s).current_turn == i);
            assert(end_turn_outcome(s).current() == s.players[i]);
        },
        None => {},
    }
}

} // verus!
