//! The classic engine: the turn and phase state machine over two policies.

use vstd::prelude::*;
use crate::game::board::Board;
use crate::game::events::{
    ClassicEventResolver, StandardRoulette, append_events, mover_id, no_events, one_event,
    money_event, roulette_value,
};
use crate::game::map::{
    House, HouseView, MapData, TileType, TileView, clone_careers, clone_houses, negate_money,
    sub_money,
};
use crate::game::player::{PlayerId, PlayerState, PlayerStateView};
use crate::game::ranking::rank_players;
use crate::game::rules;
use crate::game::rules::keeps_table;
use crate::game::state::{
    GameEvent, GameEventView, GameState, GameStateView, InsuranceType, PlayerAction,
    PlayerActionView, Ranking, SpinResult, SpinResultView, TurnPhase,
};
use crate::game::traits::{EventResolver, GameEngine, Roulette};
use crate::game::turns::{
    INITIAL_SEED, active, end_turn_outcome, first_active, init_outcome, lemma_next_turn,
};
use crate::search::{
    first_index, is_first_index, lemma_first_index_found, lemma_first_index_missing,
};
use crate::text::{owned, str_eq};
use vstd::string::StringExecFns;

verus! {

/// The engine of the classic game. Its rules come from a resolver and a
/// roulette, which can be exchanged.
pub struct ClassicGameEngine<
    E: EventResolver + ?Sized = dyn EventResolver,
    R: Roulette + ?Sized = dyn Roulette,
> {
    event_resolver: Box<E>,
    roulette: Box<R>,
}

/// Where the player who has the turn hops next: the first successor of the
/// tile they stand on, if it has one.
pub open spec fn hop(s: GameStateView) -> Option<usize> {
    match s.board.tile(s.current().position) {
        Some(tile) if tile.next.len() > 0 => Some(tile.next[0]),
        _ => None,
    }
}

/// The tile with this id is a pay day.
pub open spec fn is_payday(s: GameStateView, id: usize) -> bool {
    s.board.tile(id) matches Some(tile) && tile.tile_type == TileType::Payday
}

/// The event that reports the salary of a pay day that was passed.
pub open spec fn passed_payday(paid: GameStateView) -> GameEventView {
    rules::money_changed(paid.current().id, paid.current().salary as i64, "給料日(通過)"@)
}

impl ClassicGameEngine {
    /// The engine of the classic rules with the standard roulette.
    pub fn new() -> (r: Self)
        ensures
            r.classic(),
    {
        Self { event_resolver: Box::new(ClassicEventResolver), roulette: Box::new(StandardRoulette) }
    }
}

impl<E: EventResolver + ?Sized, R: Roulette + ?Sized> ClassicGameEngine<E, R> {
    /// What the engine's roulette shows for a snapshot.
    pub closed spec fn roulette_value(&self, state: GameStateView) -> u32 {
        self.roulette.value(state)
    }

    /// What the engine's resolver does where the mover lands on `tile`.
    pub closed spec fn tile_outcome(&self, state: GameStateView, tile: TileView) -> (
        GameStateView,
        Seq<GameEventView>,
    ) {
        self.event_resolver.tile_outcome(state, tile)
    }

    /// What the engine's resolver does on a pay day of the player at
    /// `player_index`.
    pub closed spec fn payday_outcome(&self, state: GameStateView, player_index: int) -> GameStateView {
        self.event_resolver.payday_outcome(state, player_index)
    }

    /// What the engine's resolver does with a lawsuit against `target`.
    pub closed spec fn lawsuit_outcome(&self, state: GameStateView, target: Seq<char>) -> (
        GameStateView,
        Seq<GameEventView>,
    ) {
        self.event_resolver.lawsuit_outcome(state, target)
    }

    /// The engine plays by the classic rules, with the standard roulette.
    pub open spec fn classic(&self) -> bool {
        &&& forall|s: GameStateView| #[trigger] self.roulette_value(s) == roulette_value(s.rng_seed)
        &&& forall|s: GameStateView, t: TileView| #[trigger]
            self.tile_outcome(s, t) == rules::land_on(s, t)
        &&& forall|s: GameStateView, i: int| #[trigger]
            self.payday_outcome(s, i) == rules::payday(s, i)
        &&& forall|s: GameStateView, target: Seq<char>| #[trigger]
            self.lawsuit_outcome(s, target) == rules::lawsuit(s, target)
    }

    /// The engine's resolver keeps the table, whatever it resolves: the seats,
    /// the turn and the board stay, and players who stood on the board still
    /// do.
    pub open spec fn lawful(&self) -> bool {
        &&& forall|s: GameStateView, t: TileView|
            s.wf() ==> keeps_table(s, (#[trigger] self.tile_outcome(s, t)).0)
        &&& forall|s: GameStateView, i: int|
            0 <= i < s.players.len() ==> keeps_table(s, #[trigger] self.payday_outcome(s, i))
        &&& forall|s: GameStateView, target: Seq<char>|
            s.wf() ==> keeps_table(s, (#[trigger] self.lawsuit_outcome(s, target)).0)
    }

    /// An engine over the given policies.
    pub fn with_components(event_resolver: Box<E>, roulette: Box<R>) -> (r: Self)
        ensures
            forall|s: GameStateView| #[trigger] r.roulette_value(s) == roulette.value(s),
            forall|s: GameStateView, t: TileView| #[trigger]
                r.tile_outcome(s, t) == event_resolver.tile_outcome(s, t),
            forall|s: GameStateView, i: int| #[trigger]
                r.payday_outcome(s, i) == event_resolver.payday_outcome(s, i),
            forall|s: GameStateView, target: Seq<char>| #[trigger]
                r.lawsuit_outcome(s, target) == event_resolver.lawsuit_outcome(s, target),
    {
        Self { event_resolver, roulette }
    }

    /// What a spin gives: the roulette's value for the snapshot as it is, and
    /// the snapshot with the seed one step on, in phase `Moving`.
    pub open spec fn spin_outcome(&self, s: GameStateView) -> (GameStateView, SpinResultView) {
        (
            s.after_draw().with_phase(TurnPhase::Moving),
            SpinResultView { player_id: s.current().id, value: self.roulette_value(s) },
        )
    }

    /// The walk of the player who has the turn: one hop to the first successor
    /// for each remaining step, until a tile has no successor. A pay day that
    /// is passed pays at once; the tile where the walk ends is not passed,
    /// whether the steps ran out there or the tile has no successor.
    pub open spec fn walk(&self, s: GameStateView, remaining: nat) -> (
        GameStateView,
        Seq<GameEventView>,
    )
        decreases remaining,
    {
        if remaining == 0 {
            (s, Seq::empty())
        } else {
            match hop(s) {
                None => (s, Seq::empty()),
                Some(next) => {
                    let moved = rules::moved_to(s, next);
                    if remaining > 1 && is_payday(moved, next) && hop(moved) is Some {
                        let paid = self.payday_outcome(moved, s.current_turn);
                        let rest = self.walk(paid, (remaining - 1) as nat);
                        (rest.0, seq![passed_payday(paid)] + rest.1)
                    } else {
                        self.walk(moved, (remaining - 1) as nat)
                    }
                },
            }
        }
    }

    /// What a move of `steps` does: the walk, then the effect of the tile where
    /// it ends. The turn ends unless that effect asks for a choice.
    pub open spec fn advance_outcome(&self, s: GameStateView, steps: u32) -> (
        GameStateView,
        Seq<GameEventView>,
    ) {
        let (walked, passed) = self.walk(s, steps as nat);
        let (resolved, landed) = match walked.board.tile(walked.current().position) {
            Some(tile) => self.tile_outcome(walked, tile),
            None => (walked, Seq::empty()),
        };
        (
            if resolved.phase == TurnPhase::Moving {
                resolved.with_phase(TurnPhase::TurnEnd)
            } else {
                resolved
            },
            passed + landed,
        )
    }

    /// What the player's choice does, before the turn ends.
    pub open spec fn chosen(&self, s: GameStateView, action: PlayerActionView) -> (
        GameStateView,
        Seq<GameEventView>,
    ) {
        match action {
            PlayerActionView::BuyHouse { house_id } => rules::buy_house(s, house_id),
            PlayerActionView::BuyInsurance { insurance_type } => rules::buy_insurance(
                s,
                insurance_type,
            ),
            PlayerActionView::SkipAction => rules::unchanged(s),
            PlayerActionView::SelectLawsuitTarget { target_id } => self.lawsuit_outcome(s, target_id),
            PlayerActionView::RepayDebt => rules::repay_debt(s),
            PlayerActionView::BuyStock => rules::buy_stock(s),
        }
    }

    /// What the player's choice does; the turn ends whatever was chosen.
    pub open spec fn action_outcome(&self, s: GameStateView, action: PlayerActionView) -> (
        GameStateView,
        Seq<GameEventView>,
    ) {
        (self.chosen(s, action).0.with_phase(TurnPhase::TurnEnd), self.chosen(s, action).1)
    }
}

impl Default for ClassicGameEngine {
    fn default() -> (r: Self)
        ensures
            r.classic(),
    {
        Self::new()
    }
}

/// The place of the first house with this id.
fn house_index(houses: &Vec<House>, id: &str) -> (r: Option<usize>)
    ensures
        match r {
            Some(i) => i < houses@.len() && first_index(
                houses.deep_view(),
                |h: HouseView| h.id == id@,
            ) == Some(i as int),
            None => first_index(houses.deep_view(), |h: HouseView| h.id == id@) is None,
        },
{
    let ghost all = houses.deep_view();
    let mut i: usize = 0;
    while i < houses.len()
        invariant
            i <= houses.len(),
            all == houses.deep_view(),
            forall|j: int| 0 <= j < i ==> houses@[j].id@ != id@,
        decreases houses.len() - i,
    {
        if str_eq(houses[i].id.as_str(), id) {
            proof {
                let p = |h: HouseView| h.id == id@;
                assert forall|j: int| 0 <= j < i implies !p(#[trigger] all[j]) by {
                    assert(all[j] == houses@[j]@);
                }
                assert(all[i as int] == houses@[i as int]@);
                assert(is_first_index(all, p, i as int));
                lemma_first_index_found(all, p, i as int);
            }
            return Some(i);
        }
        i += 1;
    }
    proof {
        let p = |h: HouseView| h.id == id@;
        assert forall|j: int| 0 <= j < all.len() implies !p(#[trigger] all[j]) by {
            assert(all[j] == houses@[j]@);
        }
        lemma_first_index_missing(all, p);
    }
    None
}

fn buy_house(state: &GameState, house_id: &str) -> (r: (GameState, Vec<GameEvent>))
    requires
        state@.wf(),
    ensures
        r.0@ == rules::buy_house(state@, house_id@).0,
        r.1.deep_view() == rules::buy_house(state@, house_id@).1,
{
    let mut new_state = state.clone();
    let idx: usize = new_state.current_turn;
    match house_index(&new_state.houses_for_sale, house_id) {
        Some(h) => {
            assert(state@.houses_for_sale[h as int] == new_state.houses_for_sale@[h as int]@);
            if new_state.players[idx].money >= new_state.houses_for_sale[h].price {
                let ghost on_sale = new_state.houses_for_sale.deep_view();
                let house = new_state.houses_for_sale.remove(h);
                assert(new_state.houses_for_sale.deep_view() =~= on_sale.remove(h as int));
                new_state.players[idx].money = sub_money(new_state.players[idx].money, house.price);
                let mut reason = house.name.clone();
                reason.append("購入");
                let mut events = one_event(
                    money_event(mover_id(state), negate_money(house.price), reason),
                );
                let ghost first = events.deep_view();
                let purchased = GameEvent::HousePurchased {
                    player_id: mover_id(state),
                    house: house.clone(),
                };
                events.push(purchased);
                new_state.players[idx].houses.push(house);
                proof {
                    let expected = rules::buy_house(state@, house_id@);
                    assert(events.deep_view() =~= first.push(purchased@));
                    assert(events.deep_view() =~= expected.1);
                    assert(new_state.players@[idx as int]@.houses =~= expected.0.players[idx as int].houses);
                    assert(new_state@.players =~= expected.0.players);
                }
                (new_state, events)
            } else {
                (new_state, no_events())
            }
        },
        None => (new_state, no_events()),
    }
}

fn buy_insurance(state: &GameState, kind: InsuranceType) -> (r: (GameState, Vec<GameEvent>))
    requires
        state@.wf(),
    ensures
        r.0@ == rules::buy_insurance(state@, kind).0,
        r.1.deep_view() == rules::buy_insurance(state@, kind).1,
{
    let mut new_state = state.clone();
    let idx: usize = new_state.current_turn;
    let held: bool = match kind {
        InsuranceType::Life => new_state.players[idx].life_insurance,
        InsuranceType::Auto => new_state.players[idx].auto_insurance,
    };
    if held {
        return (new_state, no_events());
    }
    match kind {
        InsuranceType::Life => {
            new_state.players[idx].life_insurance = true;
        },
        InsuranceType::Auto => {
            new_state.players[idx].auto_insurance = true;
        },
    }
    assert(new_state@.players =~= rules::buy_insurance(state@, kind).0.players);
    let event = GameEvent::InsurancePurchased { player_id: mover_id(state), insurance_type: kind };
    (new_state, one_event(event))
}

fn repay_debt(state: &GameState) -> (r: (GameState, Vec<GameEvent>))
    requires
        state@.wf(),
    ensures
        r.0@ == rules::repay_debt(state@).0,
        r.1.deep_view() == rules::repay_debt(state@).1,
{
    let mut new_state = state.clone();
    let idx: usize = new_state.current_turn;
    let loan_unit: u64 = new_state.loan_unit;
    let repay: i64 = new_state.loan_interest_rate.apply(loan_unit);
    if new_state.players[idx].debt >= loan_unit && new_state.players[idx].money >= repay {
        new_state.players[idx].money = new_state.players[idx].money - repay;
        new_state.players[idx].debt = new_state.players[idx].debt - loan_unit;
        assert(new_state@.players =~= rules::repay_debt(state@).0.players);
        let event = money_event(mover_id(state), -repay, owned("借金返済"));
        (new_state, one_event(event))
    } else {
        (new_state, no_events())
    }
}

/// Where the player who has the turn hops next.
fn next_hop(state: &GameState) -> (r: Option<usize>)
    requires
        state@.wf(),
    ensures
        r == hop(state@),
{
    let position: usize = state.players[state.current_turn].position;
    match state.board.tile(position) {
        Some(tile) => if tile.next.len() > 0 {
            Some(tile.next[0])
        } else {
            None
        },
        None => None,
    }
}

/// Whether the tile with this id is a pay day.
fn tile_is_payday(state: &GameState, id: usize) -> (r: bool)
    ensures
        r == is_payday(state@, id),
{
    match state.board.tile(id) {
        Some(tile) => match tile.tile_type {
            TileType::Payday => true,
            _ => false,
        },
        None => false,
    }
}

impl<E: EventResolver + ?Sized, R: Roulette + ?Sized> ClassicGameEngine<E, R> {
    /// Walks the player who has the turn.
    fn walk_steps(&self, state: &GameState, steps: u32) -> (r: (GameState, Vec<GameEvent>))
        requires
            state@.wf(),
        ensures
            r.0@ == self.walk(state@, steps as nat).0,
            r.1.deep_view() == self.walk(state@, steps as nat).1,
            keeps_table(state@, r.0@),
    {
        let mut new_state = state.clone();
        let mut events: Vec<GameEvent> = no_events();
        let player_idx: usize = new_state.current_turn;
        let mut remaining: u32 = steps;
        let mut moving: bool = true;
        assert(events.deep_view() + self.walk(new_state@, remaining as nat).1 =~= self.walk(
            new_state@,
            remaining as nat,
        ).1);
        while remaining > 0 && moving
            invariant
                new_state@.wf(),
                player_idx == new_state@.current_turn,
                keeps_table(state@, new_state@),
                self.walk(state@, steps as nat).0 == self.walk(new_state@, remaining as nat).0,
                self.walk(state@, steps as nat).1 == events.deep_view() + self.walk(
                    new_state@,
                    remaining as nat,
                ).1,
                !moving ==> hop(new_state@) is None,
            decreases remaining + if moving { 1int } else { 0int },
        {
            let ghost before = new_state@;
            let ghost before_events = events.deep_view();
            match next_hop(&new_state) {
                Some(next_tile_id) => {
                    proof {
                        rules::lemma_move_keeps_table(before, 0);
                    }
                    new_state.players[player_idx].position = next_tile_id;
                    assert(new_state@.players =~= rules::moved_to(before, next_tile_id).players);
                    remaining = remaining - 1;
                    if remaining > 0 && tile_is_payday(&new_state, next_tile_id) && next_hop(
                        &new_state,
                    ).is_some() {
                        let ghost moved = new_state@;
                        new_state = self.event_resolver.resolve_payday(&new_state, player_idx);
                        let pid = mover_id(&new_state);
                        let salary: i64 = new_state.players[player_idx].salary as i64;
                        events.push(money_event(pid, salary, owned("給料日(通過)")));
                        proof {
                            rules::lemma_keeps_table_twice(before, moved, new_state@);
                            assert(events.deep_view() =~= before_events.push(
                                passed_payday(new_state@),
                            ));
                            assert(events.deep_view() + self.walk(new_state@, remaining as nat).1
                                =~= before_events + (seq![passed_payday(new_state@)] + self.walk(
                                new_state@,
                                remaining as nat,
                            ).1));
                        }
                    }
                    proof {
                        rules::lemma_keeps_table_twice(state@, before, new_state@);
                    }
                },
                None => {
                    moving = false;
                },
            }
        }
        proof {
            assert(self.walk(new_state@, remaining as nat).1 =~= Seq::<GameEventView>::empty());
            assert(events.deep_view() + Seq::<GameEventView>::empty() =~= events.deep_view());
        }
        (new_state, events)
    }
}

/// The first of the seats from `from` up to, not including, `to` whose player
/// has not retired.
fn find_active(players: &Vec<PlayerState>, from: usize, to: usize) -> (r: Option<usize>)
    requires
        from <= to <= players@.len(),
    ensures
        match r {
            Some(i) => first_active(players.deep_view(), from as int, to as int) == Some(i as int)
                && from <= i < to,
            None => first_active(players.deep_view(), from as int, to as int) is None,
        },
{
    let ghost range = players.deep_view().subrange(from as int, to as int);
    let mut i: usize = from;
    while i < to
        invariant
            from <= i <= to <= players@.len(),
            range == players.deep_view().subrange(from as int, to as int),
            forall|j: int| from <= j < i ==> players@[j].retired,
        decreases to - i,
    {
        if !players[i].retired {
            proof {
                let p = |p: PlayerStateView| active(p);
                assert forall|j: int| 0 <= j < i - from implies !p(#[trigger] range[j]) by {
                    assert(range[j] == players@[from + j]@);
                }
                assert(range[i - from] == players@[i as int]@);
                assert(is_first_index(range, p, i - from));
                lemma_first_index_found(range, p, i - from);
            }
            return Some(i);
        }
        i += 1;
    }
    proof {
        let p = |p: PlayerStateView| active(p);
        assert forall|j: int| 0 <= j < range.len() implies !p(#[trigger] range[j]) by {
            assert(range[j] == players@[from + j]@);
        }
        lemma_first_index_missing(range, p);
    }
    None
}

/// Hands the turn on.
fn hand_on(state: &GameState) -> (r: GameState)
    requires
        state@.wf(),
    ensures
        r@ == end_turn_outcome(state@),
{
    let mut new_state = state.clone();
    let count: usize = new_state.players.len();
    let after: usize = new_state.current_turn + 1;
    let next: Option<usize> = match find_active(&new_state.players, after, count) {
        Some(i) => Some(i),
        None => find_active(&new_state.players, 0, after),
    };
    match next {
        Some(i) => {
            new_state.current_turn = i;
            new_state.phase = TurnPhase::WaitingForSpin;
        },
        None => {},
    }
    new_state
}

/// Whether every player has retired.
fn all_retired(state: &GameState) -> (r: bool)
    ensures
        r == state@.finished(),
{
    let mut i: usize = 0;
    while i < state.players.len()
        invariant
            i <= state.players.len(),
            forall|j: int| 0 <= j < i ==> state.players@[j].retired,
        decreases state.players.len() - i,
    {
        if !state.players[i].retired {
            assert(!state@.players[i as int].retired);
            return false;
        }
        i += 1;
    }
    assert forall|j: int| 0 <= j < state@.players.len() implies (#[trigger] state@.players[j]).retired by {
        assert(state.players@[j].retired);
    }
    true
}

/// The snapshot that a game starts from.
fn start(players: &Vec<(PlayerId, String)>, map: &MapData) -> (r: GameState)
    ensures
        r@ == init_outcome(players.deep_view(), map@),
{
    let board = Board::from_map(map);
    let start_pos: usize = if board.tiles.len() > 0 {
        board.tiles[0].id
    } else {
        0
    };
    assert(board@.tiles.len() > 0 ==> board@.tiles[0] == board.tiles@[0]@);
    let mut player_states: Vec<PlayerState> = Vec::new();
    let mut i: usize = 0;
    while i < players.len()
        invariant
            i <= players.len(),
            player_states@.len() == i,
            forall|j: int|
                0 <= j < i ==> (#[trigger] player_states@[j])@ == (PlayerStateView {
                    position: start_pos,
                    ..PlayerStateView::fresh(players@[j].0@, players@[j].1@, map.start_money)
                }),
        decreases players.len() - i,
    {
        let mut ps = PlayerState::new(players[i].0.clone(), players[i].1.clone(), map.start_money);
        ps.position = start_pos;
        player_states.push(ps);
        i += 1;
    }
    let r = GameState {
        players: player_states,
        board,
        current_turn: 0,
        phase: TurnPhase::WaitingForSpin,
        rng_seed: INITIAL_SEED,
        loan_unit: map.loan_unit,
        loan_interest_rate: map.loan_interest_rate,
        careers: clone_careers(&map.careers),
        houses_for_sale: clone_houses(&map.houses),
    };
    proof {
        let expected = init_outcome(players.deep_view(), map@);
        assert(r@.players =~= expected.players);
    }
    r
}

impl<E: EventResolver + ?Sized, R: Roulette + ?Sized> GameEngine for ClassicGameEngine<E, R> {
    open spec fn spin_value(&self, state: GameStateView) -> u32 {
        self.roulette_value(state)
    }

    open spec fn advance_result(&self, state: GameStateView, steps: u32) -> (
        GameStateView,
        Seq<GameEventView>,
    ) {
        self.advance_outcome(state, steps)
    }

    open spec fn action_result(&self, state: GameStateView, action: PlayerActionView) -> (
        GameStateView,
        Seq<GameEventView>,
    ) {
        self.action_outcome(state, action)
    }

    fn init(&self, players: Vec<(PlayerId, String)>, map: &MapData) -> (r: GameState) {
        let r = start(&players, map);
        proof {
            if players@.len() > 0 && r@.board.closed() {
                assert(r@.board.tiles[0].id == r@.players[0].position);
                assert forall|i: int| 0 <= i < r@.players.len() implies r@.board.has_tile(
                    (#[trigger] r@.players[i]).position,
                ) by {
                    assert(r@.players[i].position == r@.board.tiles[0].id);
                }
            }
        }
        r
    }

    fn spin(&self, state: &GameState) -> (r: (GameState, SpinResult))
        ensures
            r.0@ == self.spin_outcome(state@).0,
            r.1@ == self.spin_outcome(state@).1,
    {
        let value: u32 = self.roulette.spin(state);
        let mut new_state = state.clone();
        new_state.next_random();
        new_state.phase = TurnPhase::Moving;
        let result = SpinResult { player_id: mover_id(state), value };
        (new_state, result)
    }

    fn advance(&self, state: &GameState, steps: u32) -> (r: (GameState, Vec<GameEvent>))
        ensures
            r.0@ == self.advance_outcome(state@, steps).0,
            r.1.deep_view() == self.advance_outcome(state@, steps).1,
    {
        let (walked, mut events) = self.walk_steps(state, steps);
        let final_pos: usize = walked.players[walked.current_turn].position;
        let resolved: Option<(GameState, Vec<GameEvent>)> = match walked.board.tile(final_pos) {
            Some(tile) => Some(self.event_resolver.resolve_tile(&walked, tile)),
            None => None,
        };
        let mut new_state = match resolved {
            Some((resolved_state, tile_events)) => {
                append_events(&mut events, tile_events);
                proof {
                    rules::lemma_keeps_table_twice(state@, walked@, resolved_state@);
                }
                resolved_state
            },
            None => {
                assert(events.deep_view() + Seq::<GameEventView>::empty() =~= events.deep_view());
                walked
            },
        };
        match new_state.phase {
            TurnPhase::Moving => {
                new_state.phase = TurnPhase::TurnEnd;
            },
            _ => {},
        }
        (new_state, events)
    }

    fn choose_path(&self, state: &GameState, path_index: usize) -> (r: GameState) {
        let mut new_state = state.clone();
        let player_idx: usize = new_state.current_turn;
        let current_pos: usize = new_state.players[player_idx].position;
        let target: Option<usize> = match new_state.board.tile(current_pos) {
            Some(tile) => if path_index < tile.next.len() {
                Some(tile.next[path_index])
            } else {
                None
            },
            None => None,
        };
        match target {
            Some(to) => {
                proof {
                    rules::lemma_move_keeps_table(state@, path_index as int);
                }
                new_state.players[player_idx].position = to;
                assert(new_state@.players =~= rules::moved_to(state@, to).players);
            },
            None => {},
        }
        new_state.phase = TurnPhase::TurnEnd;
        new_state
    }

    fn resolve_action(&self, state: &GameState, action: PlayerAction) -> (r: (
        GameState,
        Vec<GameEvent>,
    ))
        ensures
            r.0@ == self.action_outcome(state@, action@).0,
            r.1.deep_view() == self.action_outcome(state@, action@).1,
    {
        proof {
            rules::lemma_choices_keep_places(state@, Seq::empty(), InsuranceType::Life);
        }
        let (mut new_state, events) = match action {
            PlayerAction::BuyHouse { house_id } => {
                proof {
                    rules::lemma_choices_keep_places(state@, house_id@, InsuranceType::Life);
                    rules::lemma_same_places_keeps_table(
                        state@,
                        rules::buy_house(state@, house_id@).0,
                    );
                }
                buy_house(state, house_id.as_str())
            },
            PlayerAction::BuyInsurance { insurance_type } => {
                proof {
                    rules::lemma_choices_keep_places(state@, Seq::empty(), insurance_type);
                    rules::lemma_same_places_keeps_table(
                        state@,
                        rules::buy_insurance(state@, insurance_type).0,
                    );
                }
                buy_insurance(state, insurance_type)
            },
            PlayerAction::SkipAction => (state.clone(), no_events()),
            PlayerAction::SelectLawsuitTarget { target_id } => self.event_resolver.resolve_lawsuit(
                state,
                &target_id,
            ),
            PlayerAction::RepayDebt => {
                proof {
                    rules::lemma_same_places_keeps_table(state@, rules::repay_debt(state@).0);
                }
                repay_debt(state)
            },
            PlayerAction::BuyStock => {
                proof {
                    rules::lemma_same_places_keeps_table(state@, rules::buy_stock(state@).0);
                }
                ClassicEventResolver::buy_stock(state)
            },
        };
        new_state.phase = TurnPhase::TurnEnd;
        (new_state, events)
    }

    fn end_turn(&self, state: &GameState) -> (r: GameState) {
        proof {
            lemma_next_turn(state@);
        }
        hand_on(state)
    }

    fn is_finished(&self, state: &GameState) -> (r: bool) {
        all_retired(state)
    }

    fn rankings(&self, state: &GameState) -> (r: Vec<Ranking>) {
        rank_players(state)
    }
}

} // verus!
