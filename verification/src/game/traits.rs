//! The interfaces of the game: the engine, and the two policies it is built
//! from. Each policy names, as a spec function, what it does to a snapshot; its
//! executable method returns exactly that.

use vstd::prelude::*;
use crate::game::board::Tile;
use crate::game::map::{MapData, TileView};
use crate::game::player::PlayerId;
use crate::game::ranking::{rank_at, rankings_outcome};
use crate::game::rules::keeps_table;
use crate::game::state::{
    GameEvent, GameEventView, GameState, GameStateView, PlayerAction, PlayerActionView, Ranking,
    SpinResult, SpinResultView, TurnPhase, xorshift64,
};
use crate::game::turns::{choose_path_outcome, end_turn_outcome, init_outcome};

verus! {

/// The source of the number of steps a player moves.
pub trait Roulette: Send + Sync {
    /// The value this roulette shows for a snapshot.
    spec fn value(&self, state: GameStateView) -> u32;

    /// Shows a value from 1 to 10 without changing the snapshot.
    fn spin(&self, state: &GameState) -> (v: u32)
        ensures
            v == self.value(state@),
            1 <= v <= 10,
    ;
}

/// The rules that say what tiles, pay days and lawsuits do.
pub trait EventResolver: Send + Sync {
    /// What landing on `tile` does, and what it reports.
    spec fn tile_outcome(&self, state: GameStateView, tile: TileView) -> (
        GameStateView,
        Seq<GameEventView>,
    );

    /// What a pay day does for the player at `player_index`.
    spec fn payday_outcome(&self, state: GameStateView, player_index: int) -> GameStateView;

    /// What a lawsuit of the player who has the turn against `target` does, and
    /// what it reports.
    spec fn lawsuit_outcome(&self, state: GameStateView, target: Seq<char>) -> (
        GameStateView,
        Seq<GameEventView>,
    );

    /// Resolves the tile on which the player who has the turn has stopped.
    fn resolve_tile(&self, state: &GameState, tile: &Tile) -> (r: (GameState, Vec<GameEvent>))
        requires
            state@.wf(),
        ensures
            r.0@ == self.tile_outcome(state@, tile@).0,
            r.1.deep_view() == self.tile_outcome(state@, tile@).1,
            keeps_table(state@, r.0@),
    ;

    /// Pays the player at `player_index`.
    fn resolve_payday(&self, state: &GameState, player_index: usize) -> (r: GameState)
        requires
            player_index < state@.players.len(),
        ensures
            r@ == self.payday_outcome(state@, player_index as int),
            keeps_table(state@, r@),
    ;

    /// Resolves a lawsuit of the player who has the turn against `target`.
    fn resolve_lawsuit(&self, state: &GameState, target: &PlayerId) -> (r: (
        GameState,
        Vec<GameEvent>,
    ))
        requires
            state@.wf(),
        ensures
            r.0@ == self.lawsuit_outcome(state@, target@).0,
            r.1.deep_view() == self.lawsuit_outcome(state@, target@).1,
            keeps_table(state@, r.0@),
    ;
}

/// The turn and phase state machine. No operation changes the snapshot it is
/// given; each returns a new one. How a game starts, how a way is chosen, who
/// gets the turn and how players rank is the same for every engine; what a
/// spin shows, what a move does and what a choice does is named by the engine.
pub trait GameEngine: Send + Sync {
    /// The value that a spin shows for a snapshot.
    spec fn spin_value(&self, state: GameStateView) -> u32;

    /// What a move of `steps` does, and what it reports.
    spec fn advance_result(&self, state: GameStateView, steps: u32) -> (
        GameStateView,
        Seq<GameEventView>,
    );

    /// What a player's choice does, and what it reports.
    spec fn action_result(&self, state: GameStateView, action: PlayerActionView) -> (
        GameStateView,
        Seq<GameEventView>,
    );

    /// The snapshot a game starts from: every player in turn order with the
    /// starting funds on the first tile, the first to move.
    fn init(&self, players: Vec<(PlayerId, String)>, map: &MapData) -> (r: GameState)
        ensures
            r@ == init_outcome(players.deep_view(), map@),
            players@.len() > 0 ==> r@.wf(),
            players@.len() > 0 && r@.board.closed() ==> r@.on_board(),
    ;

    /// Spins for the player who has the turn. The value comes from the seed as
    /// it is; the new snapshot holds the seed one step on, in phase `Moving`.
    fn spin(&self, state: &GameState) -> (r: (GameState, SpinResult))
        requires
            state@.wf(),
        ensures
            r.0@ == state@.after_draw().with_phase(TurnPhase::Moving),
            r.0@.rng_seed == xorshift64(state@.rng_seed),
            r.1@ == (SpinResultView {
                player_id: state@.current().id,
                value: self.spin_value(state@),
            }),
            1 <= r.1.value <= 10,
    ;

    /// Moves the player who has the turn and resolves the tile where the move
    /// ends. The phase `Moving` does not outlast the move.
    fn advance(&self, state: &GameState, steps: u32) -> (r: (GameState, Vec<GameEvent>))
        requires
            state@.wf(),
        ensures
            r.0@ == self.advance_result(state@, steps).0,
            r.1.deep_view() == self.advance_result(state@, steps).1,
            keeps_table(state@, r.0@),
            r.0@.phase != TurnPhase::Moving,
    ;

    /// Takes the way out of a branch that the player chose; an index that the
    /// tile does not have is a pass. Either way the turn ends.
    fn choose_path(&self, state: &GameState, path_index: usize) -> (r: GameState)
        requires
            state@.wf(),
        ensures
            r@ == choose_path_outcome(state@, path_index),
            keeps_table(state@, r@),
    ;

    /// Applies what the player chose where a tile offered a choice. The turn
    /// ends whatever was chosen.
    fn resolve_action(&self, state: &GameState, action: PlayerAction) -> (r: (
        GameState,
        Vec<GameEvent>,
    ))
        requires
            state@.wf(),
        ensures
            r.0@ == self.action_result(state@, action@).0,
            r.1.deep_view() == self.action_result(state@, action@).1,
            keeps_table(state@, r.0@),
            r.0@.phase == TurnPhase::TurnEnd,
    ;

    /// Hands the turn to the next player who has not retired. Where every
    /// player has retired the snapshot stays as it is.
    fn end_turn(&self, state: &GameState) -> (r: GameState)
        requires
            state@.wf(),
        ensures
            r@ == end_turn_outcome(state@),
            r@.wf(),
            !state@.finished() ==> !r@.current().retired,
    ;

    /// Whether every player has retired.
    fn is_finished(&self, state: &GameState) -> (r: bool)
        ensures
            r == state@.finished(),
    ;

    /// The players from the richest to the poorest, players of equal worth in
    /// turn order, ranked from 1.
    fn rankings(&self, state: &GameState) -> (r: Vec<Ranking>)
        ensures
            r.deep_view() == rankings_outcome(state@),
            r@.len() == state@.players.len(),
            forall|a: int, b: int|
                0 <= a <= b < r@.len() ==> (#[trigger] r@[a]).total_assets >= (
                #[trigger] r@[b]).total_assets,
            forall|a: int| 0 <= a < r@.len() ==> (#[trigger] r@[a]).rank == rank_at(a),
    ;
}

} // verus!
