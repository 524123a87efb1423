//! The snapshot of a game, the intents a player can state and the effects an
//! engine operation reports.

use vstd::prelude::*;
use crate::game::board::{Board, BoardView};
use crate::game::map::{Career, CareerView, House, HouseView, InterestRate, clone_careers, clone_houses};
use crate::game::player::{PlayerId, PlayerState, PlayerStateView};
use crate::search::{first_index, is_first_index, lemma_first_index_found, lemma_first_index_missing};
use crate::text::str_eq;

verus! {

/// The step of a turn, which decides what may be asked next.
#[derive(Clone, Copy, Debug, PartialEq, Eq, Structural)]
pub enum TurnPhase {
    WaitingForSpin,
    Spinning,
    Moving,
    ResolvingEvent,
    ChoosingPath,
    ChoosingAction,
    TurnEnd,
}

/// One step of the 64-bit xorshift generator.
pub open spec fn xorshift64(x: u64) -> u64 {
    let a = x ^ (x << 13);
    let b = a ^ (a >> 7);
    b ^ (b << 17)
}

/// A step of the generator moves every seed but 0, and so do two steps; no
/// step leads to 0. A game's seed is therefore never the same after a draw.
pub proof fn lemma_xorshift_moves(x: u64)
    by (bit_vector)
    requires
        x != 0,
    ensures
        xorshift64(x) != 0,
        xorshift64(x) != x,
        xorshift64(xorshift64(x)) != x,
{
}

/// One step of the 64-bit xorshift generator.
pub fn xorshift64_step(x: u64) -> (r: u64)
    ensures
        r == xorshift64(x),
{
    let a: u64 = x ^ (x << 13);
    let b: u64 = a ^ (a >> 7);
    b ^ (b << 17)
}

/// The complete state of a game. Every engine operation returns a new one.
#[derive(Debug)]
pub struct GameState {
    pub players: Vec<PlayerState>,
    pub board: Board,
    pub current_turn: usize,
    pub phase: TurnPhase,
    pub rng_seed: u64,
    pub loan_unit: u64,
    pub loan_interest_rate: InterestRate,
    pub careers: Vec<Career>,
    pub houses_for_sale: Vec<House>,
}

/// The model of a snapshot.
pub struct GameStateView {
    pub players: Seq<PlayerStateView>,
    pub board: BoardView,
    pub current_turn: int,
    pub phase: TurnPhase,
    pub rng_seed: u64,
    pub loan_unit: u64,
    pub loan_interest_rate: InterestRate,
    pub careers: Seq<CareerView>,
    pub houses_for_sale: Seq<HouseView>,
}

impl GameStateView {
    /// Some player has the turn.
    pub open spec fn wf(self) -> bool {
        0 <= self.current_turn < self.players.len()
    }

    /// The board is closed and every player stands on one of its tiles.
    pub open spec fn on_board(self) -> bool {
        &&& self.board.closed()
        &&& forall|i: int|
            0 <= i < self.players.len() ==> self.board.has_tile((#[trigger] self.players[i]).position)
    }

    /// The player who has the turn.
    pub open spec fn current(self) -> PlayerStateView {
        self.players[self.current_turn]
    }

    /// The same snapshot with player `i` replaced.
    pub open spec fn with_player(self, i: int, p: PlayerStateView) -> GameStateView {
        GameStateView { players: self.players.update(i, p), ..self }
    }

    /// The same snapshot in another phase.
    pub open spec fn with_phase(self, phase: TurnPhase) -> GameStateView {
        GameStateView { phase, ..self }
    }

    /// The same snapshot after one draw from the generator.
    pub open spec fn after_draw(self) -> GameStateView {
        GameStateView { rng_seed: xorshift64(self.rng_seed), ..self }
    }

    /// The place of the first player with this id.
    pub open spec fn player_index(self, id: Seq<char>) -> Option<int> {
        first_index(self.players, |p: PlayerStateView| p.id == id)
    }

    /// The first player with this id.
    pub open spec fn player_by_id(self, id: Seq<char>) -> Option<PlayerStateView> {
        match self.player_index(id) {
            Some(i) => Some(self.players[i]),
            None => None,
        }
    }

    /// How many players have not retired.
    pub open spec fn active_player_count(self) -> nat {
        self.players.filter(|p: PlayerStateView| !p.retired).len()
    }

    /// Every player has retired.
    pub open spec fn finished(self) -> bool {
        forall|i: int| 0 <= i < self.players.len() ==> (#[trigger] self.players[i]).retired
    }
}

impl View for GameState {
    type V = GameStateView;

    open spec fn view(&self) -> GameStateView {
        GameStateView {
            players: self.players.deep_view(),
            board: self.board@,
            current_turn: self.current_turn as int,
            phase: self.phase,
            rng_seed: self.rng_seed,
            loan_unit: self.loan_unit,
            loan_interest_rate: self.loan_interest_rate,
            careers: self.careers.deep_view(),
            houses_for_sale: self.houses_for_sale.deep_view(),
        }
    }
}

impl DeepView for GameState {
    type V = GameStateView;

    open spec fn deep_view(&self) -> GameStateView {
        self@
    }
}

/// Copies a list of players.
pub(crate) fn clone_players(v: &Vec<PlayerState>) -> (r: Vec<PlayerState>)
    ensures
        r.deep_view() == v.deep_view(),
{
    let r = v.clone();
    assert(r.deep_view() =~= v.deep_view());
    r
}

impl Clone for GameState {
    fn clone(&self) -> (r: Self)
        ensures
            r@ == self@,
    {
        GameState {
            players: clone_players(&self.players),
            board: self.board.clone(),
            current_turn: self.current_turn,
            phase: self.phase,
            rng_seed: self.rng_seed,
            loan_unit: self.loan_unit,
            loan_interest_rate: self.loan_interest_rate,
            careers: clone_careers(&self.careers),
            houses_for_sale: clone_houses(&self.houses_for_sale),
        }
    }
}

impl GameState {
    /// The player who has the turn.
    pub fn current_player(&self) -> (r: &PlayerState)
        requires
            self@.wf(),
        ensures
            r@ == self@.current(),
    {
        &self.players[self.current_turn]
    }

    /// The player who has the turn, to be changed in place.
    pub fn current_player_mut(&mut self) -> (r: &mut PlayerState)
        requires
            old(self)@.wf(),
        ensures
            r@ == old(self)@.current(),
            final(self)@ == old(self)@.with_player(old(self).current_turn as int, final(r)@),
    {
        proof {
            let before = self.players;
            let turn = self.current_turn as int;
            assert forall|after: Vec<PlayerState>, p: PlayerState|
                after@ == #[trigger] before@.update(turn, p) implies #[trigger] after.deep_view()
                == before.deep_view().update(turn, p@) by {
                assert(after.deep_view() =~= before.deep_view().update(turn, p@));
            }
        }
        &mut self.players[self.current_turn]
    }

    /// The place of the first player with this id.
    pub fn player_index(&self, id: &str) -> (r: Option<usize>)
        ensures
            match r {
                Some(i) => self@.player_index(id@) == Some(i as int) && i < self.players@.len(),
                None => self@.player_index(id@) is None,
            },
    {
        let mut i: usize = 0;
        while i < self.players.len()
            invariant
                i <= self.players.len(),
                forall|j: int| 0 <= j < i ==> self.players@[j].id@ != id@,
            decreases self.players.len() - i,
        {
            if str_eq(self.players[i].id.as_str(), id) {
                proof {
                    let p = |p: PlayerStateView| p.id == id@;
                    assert forall|j: int| 0 <= j < i implies !p(#[trigger] self@.players[j]) by {
                        assert(self@.players[j] == self.players@[j]@);
                    }
                    assert(self@.players[i as int] == self.players@[i as int]@);
                    assert(is_first_index(self@.players, p, i as int));
                    lemma_first_index_found(self@.players, p, i as int);
                }
                return Some(i);
            }
            i += 1;
        }
        proof {
            let p = |p: PlayerStateView| p.id == id@;
            assert forall|j: int| 0 <= j < self@.players.len() implies !p(#[trigger] self@.players[j]) by {
                assert(self@.players[j] == self.players@[j]@);
            }
            lemma_first_index_missing(self@.players, p);
        }
        None
    }

    /// The first player with this id.
    pub fn player_by_id(&self, id: &str) -> (r: Option<&PlayerState>)
        ensures
            r.deep_view() == self@.player_by_id(id@),
    {
        match self.player_index(id) {
            Some(i) => {
                assert(self@.players[i as int] == self.players@[i as int]@);
                Some(&self.players[i])
            },
            None => None,
        }
    }

    /// How many players have not retired.
    pub fn active_player_count(&self) -> (r: usize)
        ensures
            r == self@.active_player_count(),
    {
        let ghost all = self@.players;
        let ghost active = |p: PlayerStateView| !p.retired;
        let mut count: usize = 0;
        let mut i: usize = 0;
        while i < self.players.len()
            invariant
                i <= self.players.len(),
                all == self@.players,
                active == |p: PlayerStateView| !p.retired,
                count == all.take(i as int).filter(active).len(),
                count <= i,
            decreases self.players.len() - i,
        {
            proof {
                reveal(Seq::filter);
                assert(all.take(i + 1).drop_last() =~= all.take(i as int));
                assert(all.take(i + 1).last() == self.players@[i as int]@);
            }
            if !self.players[i].retired {
                count += 1;
            }
            i += 1;
        }
        assert(all.take(i as int) =~= all);
        count
    }

    /// Advances the generator by one step and returns the new seed.
    pub fn next_random(&mut self) -> (r: u64)
        ensures
            r == xorshift64(old(self).rng_seed),
            final(self)@ == old(self)@.after_draw(),
    {
        let x: u64 = xorshift64_step(self.rng_seed);
        self.rng_seed = x;
        x
    }
}

/// The kinds of insurance a player can hold.
#[derive(Clone, Copy, Debug, PartialEq, Eq, Structural)]
pub enum InsuranceType {
    Life,
    Auto,
}

/// What a player chooses in the phase `ChoosingAction`.
#[derive(Debug)]
pub enum PlayerAction {
    BuyHouse { house_id: String },
    BuyInsurance { insurance_type: InsuranceType },
    SkipAction,
    SelectLawsuitTarget { target_id: PlayerId },
    RepayDebt,
    BuyStock,
}

/// The model of a player's choice.
pub enum PlayerActionView {
    BuyHouse { house_id: Seq<char> },
    BuyInsurance { insurance_type: InsuranceType },
    SkipAction,
    SelectLawsuitTarget { target_id: Seq<char> },
    RepayDebt,
    BuyStock,
}

impl View for PlayerAction {
    type V = PlayerActionView;

    open spec fn view(&self) -> PlayerActionView {
        match self {
            PlayerAction::BuyHouse { house_id } => PlayerActionView::BuyHouse { house_id: house_id@ },
            PlayerAction::BuyInsurance { insurance_type } => PlayerActionView::BuyInsurance {
                insurance_type: *insurance_type,
            },
            PlayerAction::SkipAction => PlayerActionView::SkipAction,
            PlayerAction::SelectLawsuitTarget { target_id } => PlayerActionView::SelectLawsuitTarget {
                target_id: target_id@,
            },
            PlayerAction::RepayDebt => PlayerActionView::RepayDebt,
            PlayerAction::BuyStock => PlayerActionView::BuyStock,
        }
    }
}

impl Clone for PlayerAction {
    fn clone(&self) -> (r: Self)
        ensures
            r@ == self@,
    {
        match self {
            PlayerAction::BuyHouse { house_id } => PlayerAction::BuyHouse {
                house_id: house_id.clone(),
            },
            PlayerAction::BuyInsurance { insurance_type } => PlayerAction::BuyInsurance {
                insurance_type: *insurance_type,
            },
            PlayerAction::SkipAction => PlayerAction::SkipAction,
            PlayerAction::SelectLawsuitTarget { target_id } => PlayerAction::SelectLawsuitTarget {
                target_id: target_id.clone(),
            },
            PlayerAction::RepayDebt => PlayerAction::RepayDebt,
            PlayerAction::BuyStock => PlayerAction::BuyStock,
        }
    }
}

/// One entry of a choice that is put to a player.
#[derive(Debug)]
pub struct GameChoice {
    pub id: String,
    pub label: String,
}

/// The model of an entry of a choice.
pub struct GameChoiceView {
    pub id: Seq<char>,
    pub label: Seq<char>,
}

impl View for GameChoice {
    type V = GameChoiceView;

    open spec fn view(&self) -> GameChoiceView {
        GameChoiceView { id: self.id@, label: self.label@ }
    }
}

impl DeepView for GameChoice {
    type V = GameChoiceView;

    open spec fn deep_view(&self) -> GameChoiceView {
        self@
    }
}

impl Clone for GameChoice {
    fn clone(&self) -> (r: Self)
        ensures
            r@ == self@,
    {
        GameChoice { id: self.id.clone(), label: self.label.clone() }
    }
}

/// An effect that an engine operation reports.
#[derive(Debug)]
pub enum GameEvent {
    MoneyChanged { player_id: PlayerId, amount: i64, reason: String },
    CareerAssigned { player_id: PlayerId, career: Career },
    Married { player_id: PlayerId },
    BabyBorn { player_id: PlayerId, children: u8 },
    HousePurchased { player_id: PlayerId, house: House },
    InsurancePurchased { player_id: PlayerId, insurance_type: InsuranceType },
    StockPurchased { player_id: PlayerId },
    PlayerRetired { player_id: PlayerId },
    ChoiceRequired { choices: Vec<GameChoice> },
}

/// The model of an effect.
pub enum GameEventView {
    MoneyChanged { player_id: Seq<char>, amount: i64, reason: Seq<char> },
    CareerAssigned { player_id: Seq<char>, career: CareerView },
    Married { player_id: Seq<char> },
    BabyBorn { player_id: Seq<char>, children: u8 },
    HousePurchased { player_id: Seq<char>, house: HouseView },
    InsurancePurchased { player_id: Seq<char>, insurance_type: InsuranceType },
    StockPurchased { player_id: Seq<char> },
    PlayerRetired { player_id: Seq<char> },
    ChoiceRequired { choices: Seq<GameChoiceView> },
}

impl View for GameEvent {
    type V = GameEventView;

    open spec fn view(&self) -> GameEventView {
        match self {
            GameEvent::MoneyChanged { player_id, amount, reason } => GameEventView::MoneyChanged {
                player_id: player_id@,
                amount: *amount,
                reason: reason@,
            },
            GameEvent::CareerAssigned { player_id, career } => GameEventView::CareerAssigned {
                player_id: player_id@,
                career: career@,
            },
            GameEvent::Married { player_id } => GameEventView::Married { player_id: player_id@ },
            GameEvent::BabyBorn { player_id, children } => GameEventView::BabyBorn {
                player_id: player_id@,
                children: *children,
            },
            GameEvent::HousePurchased { player_id, house } => GameEventView::HousePurchased {
                player_id: player_id@,
                house: house@,
            },
            GameEvent::InsurancePurchased { player_id, insurance_type } => {
                GameEventView::InsurancePurchased {
                    player_id: player_id@,
                    insurance_type: *insurance_type,
                }
            },
            GameEvent::StockPurchased { player_id } => GameEventView::StockPurchased {
                player_id: player_id@,
            },
            GameEvent::PlayerRetired { player_id } => GameEventView::PlayerRetired {
                player_id: player_id@,
            },
            GameEvent::ChoiceRequired { choices } => GameEventView::ChoiceRequired {
                choices: choices.deep_view(),
            },
        }
    }
}

impl DeepView for GameEvent {
    type V = GameEventView;

    open spec fn deep_view(&self) -> GameEventView {
        self@
    }
}

impl Clone for GameEvent {
    fn clone(&self) -> (r: Self)
        ensures
            r@ == self@,
    {
        match self {
            GameEvent::MoneyChanged { player_id, amount, reason } => GameEvent::MoneyChanged {
                player_id: player_id.clone(),
                amount: *amount,
                reason: reason.clone(),
            },
            GameEvent::CareerAssigned { player_id, career } => GameEvent::CareerAssigned {
                player_id: player_id.clone(),
                career: career.clone(),
            },
            GameEvent::Married { player_id } => GameEvent::Married { player_id: player_id.clone() },
            GameEvent::BabyBorn { player_id, children } => GameEvent::BabyBorn {
                player_id: player_id.clone(),
                children: *children,
            },
            GameEvent::HousePurchased { player_id, house } => GameEvent::HousePurchased {
                player_id: player_id.clone(),
                house: house.clone(),
            },
            GameEvent::InsurancePurchased { player_id, insurance_type } => {
                GameEvent::InsurancePurchased {
                    player_id: player_id.clone(),
                    insurance_type: *insurance_type,
                }
            },
            GameEvent::StockPurchased { player_id } => GameEvent::StockPurchased {
                player_id: player_id.clone(),
            },
            GameEvent::PlayerRetired { player_id } => GameEvent::PlayerRetired {
                player_id: player_id.clone(),
            },
            GameEvent::ChoiceRequired { choices } => {
                let copied = choices.clone();
                assert(copied.deep_view() =~= choices.deep_view());
                GameEvent::ChoiceRequired { choices: copied }
            },
        }
    }
}

/// What a spin of the roulette showed, and for whom.
#[derive(Debug)]
pub struct SpinResult {
    pub player_id: PlayerId,
    pub value: u32,
}

/// The model of the result of a spin.
pub struct SpinResultView {
    pub player_id: Seq<char>,
    pub value: u32,
}

impl View for SpinResult {
    type V = SpinResultView;

    open spec fn view(&self) -> SpinResultView {
        SpinResultView { player_id: self.player_id@, value: self.value }
    }
}

impl Clone for SpinResult {
    fn clone(&self) -> (r: Self)
        ensures
            r@ == self@,
    {
        SpinResult { player_id: self.player_id.clone(), value: self.value }
    }
}

/// A player's place in the final ranking.
#[derive(Debug)]
pub struct Ranking {
    pub player_id: PlayerId,
    pub player_name: String,
    pub total_assets: i64,
    pub rank: u32,
}

/// The model of a place in the ranking.
pub struct RankingView {
    pub player_id: Seq<char>,
    pub player_name: Seq<char>,
    pub total_assets: i64,
    pub rank: u32,
}

impl View for Ranking {
    type V = RankingView;

    open spec fn view(&self) -> RankingView {
        RankingView {
            player_id: self.player_id@,
            player_name: self.player_name@,
            total_assets: self.total_assets,
            rank: self.rank,
        }
    }
}

impl DeepView for Ranking {
    type V = RankingView;

    open spec fn deep_view(&self) -> RankingView {
        self@
    }
}

impl Clone for Ranking {
    fn clone(&self) -> (r: Self)
        ensures
            r@ == self@,
    {
        Ranking {
            player_id: self.player_id.clone(),
            player_name: self.player_name.clone(),
            total_assets: self.total_assets,
            rank: self.rank,
        }
    }
}

} // verus!
