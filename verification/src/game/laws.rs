//! What holds of every game: laws of the rules and of the engine, proved from
//! the outcomes that the operations are specified by.

use vstd::prelude::*;
use crate::game::board::BoardView;
use crate::game::engine::{ClassicGameEngine, hop};
use crate::game::turns::{choose_path_outcome, end_turn_outcome, init_outcome, lemma_next_turn};
use crate::game::events::roulette_value;
use crate::game::map::{HouseView, MapDataView, TileType, TileView, clamp_money};
use crate::game::player::PlayerStateView;
use crate::search::{first_index, lemma_first_index_holds};
use crate::game::rules;
use crate::game::rules::keeps_table;
use crate::game::state::{
    GameEventView, GameStateView, InsuranceType, PlayerActionView, TurnPhase, xorshift64,
};
use crate::game::traits::{EventResolver, Roulette};

verus! {

/// The first successor of the tile with this id, if the board has the tile
/// and the tile has a successor.
pub open spec fn next_of(board: BoardView, position: usize) -> Option<usize> {
    match board.tile(position) {
        Some(tile) if tile.next.len() > 0 => Some(tile.next[0]),
        _ => None,
    }
}

/// The tile reached from `position` by `steps` hops to first successors, or
/// by fewer where no successor is left.
pub open spec fn follow(board: BoardView, position: usize, steps: nat) -> usize
    decreases steps,
{
    if steps == 0 {
        position
    } else {
        match next_of(board, position) {
            Some(next) => follow(board, next, (steps - 1) as nat),
            None => position,
        }
    }
}

/// The tile is a pay day that a walk with `remaining` steps passes when it
/// comes to it: steps are left over and the tile has a successor.
pub open spec fn passes(board: BoardView, tile_id: usize, remaining: nat) -> bool {
    &&& remaining > 0
    &&& board.tile(tile_id) matches Some(tile) && tile.tile_type == TileType::Payday
    &&& next_of(board, tile_id) is Some
}

/// How many pay days a walk of `steps` from `position` passes. The tile where
/// the walk ends is not passed.
pub open spec fn paydays_passed(board: BoardView, position: usize, steps: nat) -> nat
    decreases steps,
{
    if steps == 0 {
        0
    } else {
        match next_of(board, position) {
            Some(next) => paydays_passed(board, next, (steps - 1) as nat) + if passes(
                board,
                next,
                (steps - 1) as nat,
            ) {
                1nat
            } else {
                0nat
            },
            None => 0,
        }
    }
}

/// Paying a salary once and then `k` times more is paying it `k + 1` times.
proof fn lemma_paid_once_more(money: i64, salary: u32, k: nat)
    ensures
        clamp_money(clamp_money(money + salary) + salary * k) == clamp_money(
            money + salary * (k + 1),
        ),
{
    assert(salary * (k + 1) == salary * k + salary) by (nonlinear_arith);
    assert(salary * k >= 0) by (nonlinear_arith);
}

/// One operation of the engine on a snapshot.
pub enum Operation {
    Spin,
    Advance { steps: u32 },
    ChoosePath { path_index: usize },
    ResolveAction { action: PlayerActionView },
    EndTurn,
}

impl<E: EventResolver + ?Sized, R: Roulette + ?Sized> ClassicGameEngine<E, R> {
    /// The snapshot that an operation returns.
    pub open spec fn apply(&self, s: GameStateView, op: Operation) -> GameStateView {
        match op {
            Operation::Spin => self.spin_outcome(s).0,
            Operation::Advance { steps } => self.advance_outcome(s, steps).0,
            Operation::ChoosePath { path_index } => choose_path_outcome(s, path_index),
            Operation::ResolveAction { action } => self.action_outcome(s, action).0,
            Operation::EndTurn => end_turn_outcome(s),
        }
    }

    /// The snapshot after a sequence of operations, in any order and whatever
    /// the phase.
    pub open spec fn play(&self, s: GameStateView, ops: Seq<Operation>) -> GameStateView
        decreases ops.len(),
    {
        if ops.len() == 0 {
            s
        } else {
            self.apply(self.play(s, ops.drop_last()), ops.last())
        }
    }

    /// The classic rules keep the table.
    pub proof fn lemma_classic_is_lawful(&self)
        requires
            self.classic(),
        ensures
            self.lawful(),
    {
        assert forall|s: GameStateView, t: TileView| s.wf() implies keeps_table(
            s,
            (#[trigger] self.tile_outcome(s, t)).0,
        ) by {
            rules::lemma_land_on_keeps_places(s, t);
        }
        assert forall|s: GameStateView, i: int| 0 <= i < s.players.len() implies keeps_table(
            s,
            #[trigger] self.payday_outcome(s, i),
        ) by {
            rules::lemma_payday_keeps_places(s, i);
        }
        assert forall|s: GameStateView, target: Seq<char>| s.wf() implies keeps_table(
            s,
            (#[trigger] self.lawsuit_outcome(s, target)).0,
        ) by {
            rules::lemma_lawsuit_keeps_places(s, target);
        }
    }

    /// A walk keeps the table: it follows the edges of the board.
    pub proof fn lemma_walk_keeps_table(&self, s: GameStateView, remaining: nat)
        requires
            self.lawful(),
            s.wf(),
        ensures
            keeps_table(s, self.walk(s, remaining).0),
        decreases remaining,
    {
        if remaining > 0 {
            match hop(s) {
                None => {},
                Some(next) => {
                    let moved = rules::moved_to(s, next);
                    rules::lemma_move_keeps_table(s, 0);
                    if remaining > 1 && crate::game::engine::is_payday(moved, next) && hop(moved) is Some {
                        let paid = self.payday_outcome(moved, s.current_turn);
                        rules::lemma_keeps_table_twice(s, moved, paid);
                        self.lemma_walk_keeps_table(paid, (remaining - 1) as nat);
                        rules::lemma_keeps_table_twice(
                            s,
                            paid,
                            self.walk(paid, (remaining - 1) as nat).0,
                        );
                    } else {
                        self.lemma_walk_keeps_table(moved, (remaining - 1) as nat);
                        rules::lemma_keeps_table_twice(
                            s,
                            moved,
                            self.walk(moved, (remaining - 1) as nat).0,
                        );
                    }
                },
            }
        }
    }

    /// A tile without successor ends the walk, however many steps are left,
    /// and is not passed: nothing is paid there by the walk, so that a pay day
    /// at the end of a path pays once, as the tile on which the move ends.
    pub proof fn lemma_last_stop_is_not_passed(&self, s: GameStateView, remaining: nat)
        requires
            remaining > 0,
            hop(s) matches Some(next) && hop(rules::moved_to(s, next)) is None,
        ensures
            self.walk(s, remaining) == (
                rules::moved_to(s, hop(s)->0),
                Seq::<GameEventView>::empty(),
            ),
    {
        let moved = rules::moved_to(s, hop(s)->0);
        assert(self.walk(moved, (remaining - 1) as nat) == (moved, Seq::<GameEventView>::empty()));
    }

    /// Under the classic rules a walk follows the first successors of the
    /// board for as many steps as it has, or until no successor is left. It
    /// changes the mover's tile and balance and nothing else: the salary is
    /// credited once for each pay day passed, with one event each.
    pub proof fn lemma_walk_follows_board(&self, s: GameStateView, remaining: nat)
        requires
            self.classic(),
            s.wf(),
        ensures
            ({
                let from = s.current().position;
                let passed = paydays_passed(s.board, from, remaining);
                &&& self.walk(s, remaining).0 == s.with_player(
                    s.current_turn,
                    PlayerStateView {
                        position: follow(s.board, from, remaining),
                        money: clamp_money(s.current().money + s.current().salary * passed),
                        ..s.current()
                    },
                )
                &&& self.walk(s, remaining).1 == Seq::new(
                    passed,
                    |i: int|
                        rules::money_changed(
                            s.current().id,
                            s.current().salary as i64,
                            "給料日(通過)"@,
                        ),
                )
            }),
        decreases remaining,
    {
        let from = s.current().position;
        let me = s.current();
        let passed = paydays_passed(s.board, from, remaining);
        let event = rules::money_changed(me.id, me.salary as i64, "給料日(通過)"@);
        let expected = s.with_player(
            s.current_turn,
            PlayerStateView {
                position: follow(s.board, from, remaining),
                money: clamp_money(me.money + me.salary * passed),
                ..me
            },
        );
        assert(me.salary * 0 == 0);
        if remaining == 0 || hop(s) is None {
            assert(expected.players =~= s.players);
            assert(self.walk(s, remaining).1 =~= Seq::new(passed, |i: int| event));
        } else {
            let next = hop(s)->0;
            let rest = (remaining - 1) as nat;
            let moved = rules::moved_to(s, next);
            let later = paydays_passed(s.board, next, rest);
            if remaining > 1 && crate::game::engine::is_payday(moved, next) && hop(moved) is Some {
                let paid = self.payday_outcome(moved, s.current_turn);
                assert(paid == rules::payday(moved, s.current_turn));
                self.lemma_walk_follows_board(paid, rest);
                lemma_paid_once_more(me.money, me.salary, later);
                assert(passes(s.board, next, rest));
                assert(self.walk(s, remaining).0.players =~= expected.players);
                assert(self.walk(s, remaining).1 =~= Seq::new(passed, |i: int| event));
            } else {
                self.lemma_walk_follows_board(moved, rest);
                assert(!passes(s.board, next, rest));
                assert(self.walk(s, remaining).0.players =~= expected.players);
                assert(self.walk(s, remaining).1 =~= Seq::new(passed, |i: int| event));
            }
        }
    }

    /// A move keeps the table.
    pub proof fn lemma_advance_keeps_table(&self, s: GameStateView, steps: u32)
        requires
            self.lawful(),
            s.wf(),
        ensures
            keeps_table(s, self.advance_outcome(s, steps).0),
    {
        self.lemma_walk_keeps_table(s, steps as nat);
    }

    /// Under the classic rules a choice does what the rules say of it, and
    /// the turn ends.
    pub proof fn lemma_classic_choice(&self, s: GameStateView, action: PlayerActionView)
        requires
            self.classic(),
        ensures
            self.action_outcome(s, action) == (
                rules::chosen(s, action).0.with_phase(TurnPhase::TurnEnd),
                rules::chosen(s, action).1,
            ),
    {
    }

    /// Every operation leaves a snapshot in which some player has the turn,
    /// and leaves the players on the board if they stood on it.
    pub proof fn lemma_apply_keeps_on_board(&self, s: GameStateView, op: Operation)
        requires
            self.lawful(),
            s.wf(),
        ensures
            self.apply(s, op).wf(),
            rules::same_seats(s, self.apply(s, op)),
            s.on_board() ==> self.apply(s, op).on_board(),
    {
        match op {
            Operation::Spin => {},
            Operation::Advance { steps } => {
                self.lemma_walk_keeps_table(s, steps as nat);
            },
            Operation::ChoosePath { path_index } => {
                match s.board.tile(s.current().position) {
                    Some(tile) => {
                        if path_index < tile.next.len() {
                            rules::lemma_move_keeps_table(s, path_index as int);
                        }
                    },
                    None => {},
                }
            },
            Operation::ResolveAction { action } => {
                rules::lemma_choices_keep_places(s, Seq::empty(), InsuranceType::Life);
                match action {
                    PlayerActionView::BuyHouse { house_id } => {
                        rules::lemma_choices_keep_places(s, house_id, InsuranceType::Life);
                        rules::lemma_same_places_keeps_table(s, rules::buy_house(s, house_id).0);
                    },
                    PlayerActionView::BuyInsurance { insurance_type } => {
                        rules::lemma_choices_keep_places(s, Seq::empty(), insurance_type);
                        rules::lemma_same_places_keeps_table(
                            s,
                            rules::buy_insurance(s, insurance_type).0,
                        );
                    },
                    PlayerActionView::SkipAction => {},
                    PlayerActionView::SelectLawsuitTarget { target_id } => {},
                    PlayerActionView::RepayDebt => {
                        rules::lemma_same_places_keeps_table(s, rules::repay_debt(s).0);
                    },
                    PlayerActionView::BuyStock => {
                        rules::lemma_same_places_keeps_table(s, rules::buy_stock(s).0);
                    },
                }
            },
            Operation::EndTurn => {
                lemma_next_turn(s);
                let after = end_turn_outcome(s);
                if s.on_board() {
                    assert forall|i: int| 0 <= i < after.players.len() implies after.board.has_tile(
                        (#[trigger] after.players[i]).position,
                    ) by {
                        assert(s.board.has_tile(s.players[i].position));
                    }
                }
            },
        }
    }

    /// In every snapshot that a game reaches, the player who has the turn
    /// stands on a tile of the board, and so does every other player. This
    /// holds of a game that one player or more start on a closed board.
    pub proof fn lemma_reachable_on_board(
        &self,
        players: Seq<(Seq<char>, Seq<char>)>,
        map: MapDataView,
        ops: Seq<Operation>,
    )
        requires
            self.lawful(),
            players.len() > 0,
            (BoardView { tiles: map.tiles }).closed(),
        ensures
            self.play(init_outcome(players, map), ops).wf(),
            self.play(init_outcome(players, map), ops).on_board(),
            ({
                let s = self.play(init_outcome(players, map), ops);
                s.board.has_tile(s.current().position)
            }),
        decreases ops.len(),
    {
        let start = init_outcome(players, map);
        if ops.len() == 0 {
            assert(start.board.tiles[0].id == start.players[0].position);
            assert forall|i: int| 0 <= i < start.players.len() implies start.board.has_tile(
                (#[trigger] start.players[i]).position,
            ) by {
                assert(start.players[i].position == start.board.tiles[0].id);
            }
        } else {
            self.lemma_reachable_on_board(players, map, ops.drop_last());
            self.lemma_apply_keeps_on_board(self.play(start, ops.drop_last()), ops.last());
        }
    }

    /// Under the classic rules a walk draws nothing: the seed stays as it is.
    pub proof fn lemma_walk_keeps_seed(&self, s: GameStateView, remaining: nat)
        requires
            self.classic(),
        ensures
            self.walk(s, remaining).0.rng_seed == s.rng_seed,
        decreases remaining,
    {
        if remaining > 0 {
            match hop(s) {
                None => {},
                Some(next) => {
                    let moved = rules::moved_to(s, next);
                    if remaining > 1 && crate::game::engine::is_payday(moved, next) && hop(moved) is Some {
                        let paid = self.payday_outcome(moved, s.current_turn);
                        self.lemma_walk_keeps_seed(paid, (remaining - 1) as nat);
                    } else {
                        self.lemma_walk_keeps_seed(moved, (remaining - 1) as nat);
                    }
                },
            }
        }
    }

    /// Under the classic rules the seed only moves forward: an operation
    /// leaves it as it is or takes it exactly one step on, and never sets it
    /// anew.
    pub proof fn lemma_seed_only_advances(&self, s: GameStateView, op: Operation)
        requires
            self.classic(),
        ensures
            self.apply(s, op).rng_seed == s.rng_seed || self.apply(s, op).rng_seed == xorshift64(
                s.rng_seed,
            ),
    {
        match op {
            Operation::Advance { steps } => {
                self.lemma_walk_keeps_seed(s, steps as nat);
            },
            _ => {},
        }
    }

    /// The value of a spin depends on the seed alone, and the snapshot that
    /// the spin returns holds the seed exactly one step on.
    pub proof fn lemma_spin_reads_seed(&self, a: GameStateView, b: GameStateView)
        requires
            self.classic(),
            a.rng_seed == b.rng_seed,
        ensures
            self.spin_outcome(a).1.value == self.spin_outcome(b).1.value,
            self.spin_outcome(a).1.value == roulette_value(a.rng_seed),
            1 <= self.spin_outcome(a).1.value <= 10,
            self.spin_outcome(a).0.rng_seed == xorshift64(a.rng_seed),
            self.spin_outcome(a).0.phase == TurnPhase::Moving,
            self.spin_outcome(a).0.players == a.players,
    {
    }
}

/// Landing on a house tile asks for a choice: the phase is `ChoosingAction`,
/// and the one event offers each house on sale, in order, then the entry that
/// declines.
pub proof fn lemma_house_tile_asks(s: GameStateView, tile: TileView)
    requires
        tile.tile_type == TileType::House,
    ensures
        rules::land_on(s, tile).0 == s.with_phase(TurnPhase::ChoosingAction),
        rules::land_on(s, tile).1.len() == 1,
        rules::land_on(s, tile).1[0] matches GameEventView::ChoiceRequired { choices }
            && choices.len() == s.houses_for_sale.len() + 1 && choices.last().id == "skip"@ && forall|
            i: int,
        |
            0 <= i < s.houses_for_sale.len() ==> (#[trigger] choices[i]).id
                == s.houses_for_sale[i].id,
{
}

/// A house that was bought is not offered again. Where the houses on sale have
/// ids of their own, no entry of the next offer names the house; the other
/// houses are offered as before, and the entry that declines stays last.
pub proof fn lemma_bought_house_is_not_offered(s: GameStateView, house_id: Seq<char>)
    requires
        s.wf(),
        rules::buy_house(s, house_id).1.len() > 0,
        forall|i: int, j: int|
            0 <= i < j < s.houses_for_sale.len() ==> (#[trigger] s.houses_for_sale[i]).id != (
            #[trigger] s.houses_for_sale[j]).id,
    ensures
        ({
            let bought = first_index(s.houses_for_sale, |h: HouseView| h.id == house_id)->0;
            let after = rules::buy_house(s, house_id).0;
            let offer = rules::house_choices(after.houses_for_sale);
            &&& 0 <= bought < s.houses_for_sale.len()
            &&& after.current().houses.last() == s.houses_for_sale[bought]
            &&& after.houses_for_sale == s.houses_for_sale.remove(bought)
            &&& offer.len() == s.houses_for_sale.len()
            &&& offer.last() == rules::skip_choice("購入しない"@)
            &&& forall|k: int| 0 <= k < offer.len() - 1 ==> (#[trigger] offer[k]).id != house_id
        }),
{
    let on_sale = s.houses_for_sale;
    let wanted = |h: HouseView| h.id == house_id;
    lemma_first_index_holds(on_sale, wanted);
    let bought = first_index(on_sale, wanted)->0;
    let after = rules::buy_house(s, house_id).0;
    let offer = rules::house_choices(after.houses_for_sale);
    assert forall|k: int| 0 <= k < offer.len() - 1 implies (#[trigger] offer[k]).id != house_id by {
        let from = if k < bought {
            k
        } else {
            k + 1
        };
        assert(after.houses_for_sale[k] == on_sale[from]);
        assert(on_sale[from].id != on_sale[bought].id);
    }
}

/// The id of the entry that offers an insurance of this kind.
pub open spec fn insurance_id(kind: InsuranceType) -> Seq<char> {
    match kind {
        InsuranceType::Life => "life"@,
        InsuranceType::Auto => "auto"@,
    }
}

/// Taking out an insurance that is held already is a pass: nothing changes
/// and nothing is reported. The insurance tile does not offer that kind.
pub proof fn lemma_held_insurance_is_a_pass(s: GameStateView, kind: InsuranceType)
    requires
        rules::holds_insurance(s.current(), kind),
    ensures
        rules::buy_insurance(s, kind) == rules::unchanged(s),
        forall|k: int|
            0 <= k < rules::insurance_choices(s.current()).len() ==> (
            #[trigger] rules::insurance_choices(s.current())[k]).id != insurance_id(kind),
{
    reveal_strlit("life");
    reveal_strlit("auto");
    reveal_strlit("skip");
    assert("life"@[0] != "auto"@[0]);
    assert("life"@[0] != "skip"@[0]);
    assert("auto"@[0] != "skip"@[0]);
}

/// The turn never goes to a player who has retired while a player remains who
/// has not, and where every player has retired the snapshot stays as it is.
pub proof fn lemma_end_turn_skips_retired(s: GameStateView)
    requires
        s.wf(),
    ensures
        s.finished() ==> end_turn_outcome(s) == s,
        !s.finished() ==> !end_turn_outcome(s).current().retired,
        end_turn_outcome(s).players == s.players,
{
    lemma_next_turn(s);
}

} // verus!
