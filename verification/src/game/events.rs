//! The classic policies: the roulette that reads the snapshot's seed, and the
//! resolver that applies the classic rules.

use vstd::prelude::*;
use vstd::string::StringExecFns;
use crate::game::board::Tile;
use crate::game::map::{
    Career, CareerView, House, TileEvent, TileType, TileView, add_money, clamp_money, negate_money,
    sub_money,
};
use crate::game::player::{PlayerId, PlayerStateView, Stock};
use crate::game::rules;
use crate::game::rules::money_changed;
use crate::game::state::{
    GameChoice, GameChoiceView, GameEvent, GameEventView, GameState, GameStateView, TurnPhase,
    xorshift64, xorshift64_step,
};
use crate::game::traits::{EventResolver, Roulette};
use crate::text::{decimal_nat, owned, push_decimal, push_signed, str_eq};

verus! {

// ------------------------------------------------------------------
// The roulette
// ------------------------------------------------------------------

/// The value from 1 to 10 that a seed shows: one xorshift step, reduced.
pub open spec fn roulette_value(seed: u64) -> u32 {
    (xorshift64(seed) % 10 + 1) as u32
}

/// The roulette that reads the snapshot's seed without consuming it.
pub struct StandardRoulette;

impl Roulette for StandardRoulette {
    open spec fn value(&self, state: GameStateView) -> u32 {
        roulette_value(state.rng_seed)
    }

    fn spin(&self, state: &GameState) -> (v: u32) {
        let x: u64 = xorshift64_step(state.rng_seed);
        (x % 10 + 1) as u32
    }
}

// ------------------------------------------------------------------
// Building events
// ------------------------------------------------------------------

/// The event that reports a change of a balance.
pub(crate) fn money_event(player_id: PlayerId, amount: i64, reason: String) -> (r: GameEvent)
    ensures
        r@ == money_changed(player_id@, amount, reason@),
{
    GameEvent::MoneyChanged { player_id, amount, reason }
}

/// A list of one event.
pub(crate) fn one_event(event: GameEvent) -> (r: Vec<GameEvent>)
    ensures
        r.deep_view() == seq![event@],
{
    let mut events: Vec<GameEvent> = Vec::new();
    events.push(event);
    assert(events.deep_view() =~= seq![event@]);
    events
}

/// A list of no events.
pub(crate) fn no_events() -> (r: Vec<GameEvent>)
    ensures
        r.deep_view() == Seq::<GameEventView>::empty(),
{
    let events: Vec<GameEvent> = Vec::new();
    assert(events.deep_view() =~= Seq::<GameEventView>::empty());
    events
}

/// The id of the player who has the turn.
pub(crate) fn mover_id(state: &GameState) -> (r: PlayerId)
    requires
        state@.wf(),
    ensures
        r@ == state@.current().id,
{
    state.players[state.current_turn].id.clone()
}

/// Replaces the balance of player `i`.
pub(crate) fn set_money(state: &mut GameState, i: usize, money: i64)
    requires
        i < old(state)@.players.len(),
    ensures
        final(state)@ == old(state)@.with_player(
            i as int,
            PlayerStateView { money, ..old(state)@.players[i as int] },
        ),
        final(state).players@.len() == old(state).players@.len(),
{
    state.players[i].money = money;
    assert(state@.players =~= old(state)@.players.update(
        i as int,
        PlayerStateView { money, ..old(state)@.players[i as int] },
    ));
}

/// Appends `more` to `events`.
pub(crate) fn append_events(events: &mut Vec<GameEvent>, more: Vec<GameEvent>)
    ensures
        final(events).deep_view() == old(events).deep_view() + more.deep_view(),
{
    let mut more = more;
    let ghost added = more.deep_view();
    events.append(&mut more);
    assert(events.deep_view() =~= old(events).deep_view() + added);
}

/// An entry of a choice.
fn make_choice(id: String, label: String) -> (r: GameChoice)
    ensures
        r@ == (GameChoiceView { id: id@, label: label@ }),
{
    GameChoice { id, label }
}

/// The entry that declines an offer.
fn skip_choice(label: &str) -> (r: GameChoice)
    ensures
        r@ == rules::skip_choice(label@),
{
    GameChoice { id: owned("skip"), label: owned(label) }
}

/// How a house is offered.
fn house_label(h: &House) -> (r: String)
    ensures
        r@ == rules::house_label(h@),
{
    let mut label = h.name.clone();
    label.append(" ($");
    push_signed(&mut label, h.price);
    label.append(" / 売却$");
    push_signed(&mut label, h.sell_price);
    label.append(")");
    label
}

/// One entry for each house on sale, then the entry that declines.
fn house_choices(houses: &Vec<House>) -> (r: Vec<GameChoice>)
    ensures
        r.deep_view() == rules::house_choices(houses.deep_view()),
{
    let ghost all = houses.deep_view();
    let mut choices: Vec<GameChoice> = Vec::new();
    let mut i: usize = 0;
    while i < houses.len()
        invariant
            i <= houses.len(),
            all == houses.deep_view(),
            choices@.len() == i,
            forall|j: int| 0 <= j < i ==> (#[trigger] choices@[j])@ == rules::house_choice(all[j]),
        decreases houses.len() - i,
    {
        let h = &houses[i];
        choices.push(make_choice(h.id.clone(), house_label(h)));
        i += 1;
    }
    choices.push(skip_choice("購入しない"));
    assert(choices.deep_view() =~= rules::house_choices(all));
    choices
}

/// The id of the stock unit that a draw mints.
fn stock_id(draw: u64) -> (r: String)
    ensures
        r@ == rules::minted_stock(draw).id,
{
    let mut id = owned("stock_");
    push_decimal(&mut id, draw % 100);
    id
}

/// The label of the `i`-th way out of a branch.
fn branch_label(labels: &Option<Vec<String>>, i: usize) -> (r: String)
    requires
        i < usize::MAX,
    ensures
        r@ == rules::branch_label(labels.deep_view(), i as int),
{
    match labels {
        Some(l) if i < l.len() => l[i].clone(),
        _ => {
            let mut label = owned("道 ");
            push_decimal(&mut label, (i + 1) as u64);
            label
        },
    }
}

/// One entry for each successor of the tile.
fn branch_choices(tile: &Tile) -> (r: Vec<GameChoice>)
    ensures
        r.deep_view() == rules::branch_choices(tile@),
{
    let mut choices: Vec<GameChoice> = Vec::new();
    let mut i: usize = 0;
    while i < tile.next.len()
        invariant
            i <= tile.next.len(),
            choices@.len() == i,
            forall|j: int|
                0 <= j < i ==> (#[trigger] choices@[j])@ == (GameChoiceView {
                    id: decimal_nat(j as nat),
                    label: rules::branch_label(tile@.labels, j),
                }),
        decreases tile.next.len() - i,
    {
        let mut id = String::new();
        push_decimal(&mut id, i as u64);
        assert(id@ =~= decimal_nat(i as nat));
        choices.push(make_choice(id, branch_label(&tile.labels, i)));
        i += 1;
    }
    assert(choices.deep_view() =~= rules::branch_choices(tile@));
    choices
}

/// The careers of a pool, in the order of the asset.
fn careers_of_pool(careers: &Vec<Career>, pool: &str) -> (r: Vec<Career>)
    ensures
        r.deep_view() == rules::careers_of_pool(careers.deep_view(), pool@),
{
    let ghost all = careers.deep_view();
    let ghost in_pool = |c: CareerView| c.pool == pool@;
    let mut available: Vec<Career> = Vec::new();
    let mut i: usize = 0;
    assert(available.deep_view() =~= all.take(0).filter(in_pool)) by {
        reveal(Seq::filter);
    }
    while i < careers.len()
        invariant
            i <= careers.len(),
            all == careers.deep_view(),
            in_pool == |c: CareerView| c.pool == pool@,
            available.deep_view() == all.take(i as int).filter(in_pool),
        decreases careers.len() - i,
    {
        proof {
            reveal(Seq::filter);
            assert(all.take(i + 1).drop_last() =~= all.take(i as int));
            assert(all.take(i + 1).last() == careers@[i as int]@);
        }
        let ghost before = available.deep_view();
        if str_eq(careers[i].pool.as_str(), pool) {
            available.push(careers[i].clone());
            assert(available.deep_view() =~= before.push(careers@[i as int]@));
        }
        i += 1;
    }
    assert(all.take(i as int) =~= all);
    available
}

/// Crediting `amount` once more to a balance that has been credited `k` times.
proof fn lemma_credit_again(money: i64, amount: i64, k: nat)
    ensures
        clamp_money(clamp_money(money + amount * k) + amount) == clamp_money(
            money + amount * (k + 1),
        ),
{
    assert(amount * (k + 1) == amount * k + amount) by (nonlinear_arith);
    if amount >= 0 {
        assert(amount * k >= 0) by (nonlinear_arith)
            requires
                amount >= 0,
        ;
    } else {
        assert(amount * k <= 0) by (nonlinear_arith)
            requires
                amount < 0,
        ;
    }
}

/// `amount` for each of `others` players, brought into the range of balances.
fn gift_total(amount: i64, players: usize) -> (r: i64)
    requires
        players >= 1,
    ensures
        r == clamp_money(amount * (players - 1)),
{
    let others: i128 = players as i128 - 1;
    assert(-0x8000_0000_0000_0000 * 0xffff_ffff_ffff_ffff <= amount * others
        <= 0x8000_0000_0000_0000 * 0xffff_ffff_ffff_ffff) by (nonlinear_arith)
        requires
            -0x8000_0000_0000_0000 <= amount <= 0x8000_0000_0000_0000,
            0 <= others <= 0xffff_ffff_ffff_ffff,
    ;
    let total: i128 = (amount as i128) * others;
    if total > i64::MAX as i128 {
        i64::MAX
    } else if total < i64::MIN as i128 {
        i64::MIN
    } else {
        total as i64
    }
}

/// The entries for the players that the mover can sue.
fn lawsuit_choices(state: &GameState) -> (r: Vec<GameChoice>)
    ensures
        r.deep_view() == rules::lawsuit_choices(
            state@.players,
            state@.current_turn,
            state@.players.len() as int,
        ),
{
    let ghost all = state@.players;
    let ghost mover = state@.current_turn;
    let mut choices: Vec<GameChoice> = Vec::new();
    let mut i: usize = 0;
    assert(choices.deep_view() =~= rules::lawsuit_choices(all, mover, 0));
    while i < state.players.len()
        invariant
            i <= state.players.len(),
            all == state@.players,
            mover == state@.current_turn,
            choices.deep_view() == rules::lawsuit_choices(all, mover, i as int),
        decreases state.players.len() - i,
    {
        let p = &state.players[i];
        let ghost before = choices.deep_view();
        if i != state.current_turn && !p.retired {
            let mut label = p.name.clone();
            label.append("を訴える");
            choices.push(make_choice(p.id.clone(), label));
            assert(choices.deep_view() =~= before.push(rules::lawsuit_choice(all[i as int])));
        }
        i += 1;
    }
    choices
}

// ------------------------------------------------------------------
// The resolver
// ------------------------------------------------------------------

/// The resolver of the classic rules.
pub struct ClassicEventResolver;

impl ClassicEventResolver {
    fn land_on_payday(state: &GameState) -> (r: (GameState, Vec<GameEvent>))
        requires
            state@.wf(),
        ensures
            r.0@ == rules::land_on_payday(state@).0,
            r.1.deep_view() == rules::land_on_payday(state@).1,
    {
        let mut new_state = state.clone();
        let idx: usize = new_state.current_turn;
        let salary: i64 = new_state.players[idx].salary as i64;
        let money: i64 = add_money(new_state.players[idx].money, salary);
        set_money(&mut new_state, idx, money);
        let event = money_event(mover_id(state), salary, owned("給料日"));
        (new_state, one_event(event))
    }

    fn land_on_action(state: &GameState, tile: &Tile) -> (r: (GameState, Vec<GameEvent>))
        requires
            state@.wf(),
        ensures
            r.0@ == rules::land_on_action(state@, tile@).0,
            r.1.deep_view() == rules::land_on_action(state@, tile@).1,
    {
        let mut new_state = state.clone();
        match &tile.event {
            Some(TileEvent::Money { amount, text }) => {
                let idx: usize = new_state.current_turn;
                let money: i64 = add_money(new_state.players[idx].money, *amount);
                set_money(&mut new_state, idx, money);
                let event = money_event(mover_id(state), *amount, text.clone());
                (new_state, one_event(event))
            },
            _ => (new_state, no_events()),
        }
    }

    fn land_on_tax(state: &GameState) -> (r: (GameState, Vec<GameEvent>))
        requires
            state@.wf(),
        ensures
            r.0@ == rules::land_on_tax(state@).0,
            r.1.deep_view() == rules::land_on_tax(state@).1,
    {
        let mut new_state = state.clone();
        let idx: usize = new_state.current_turn;
        let tenth: i64 = (new_state.players[idx].salary / 10) as i64;
        let tax: i64 = if tenth > 0 {
            tenth
        } else {
            rules::MINIMUM_TAX
        };
        let money: i64 = sub_money(new_state.players[idx].money, tax);
        set_money(&mut new_state, idx, money);
        let event = money_event(mover_id(state), -tax, owned("税金"));
        (new_state, one_event(event))
    }

    fn land_on_retire(state: &GameState) -> (r: (GameState, Vec<GameEvent>))
        requires
            state@.wf(),
        ensures
            r.0@ == rules::land_on_retire(state@).0,
            r.1.deep_view() == rules::land_on_retire(state@).1,
    {
        let mut new_state = state.clone();
        let idx: usize = new_state.current_turn;
        new_state.players[idx].retired = true;
        assert(new_state@.players =~= state@.players.update(
            idx as int,
            PlayerStateView { retired: true, ..state@.current() },
        ));
        let event = GameEvent::PlayerRetired { player_id: mover_id(state) };
        (new_state, one_event(event))
    }

    fn land_on_house(state: &GameState) -> (r: (GameState, Vec<GameEvent>))
        ensures
            r.0@ == rules::land_on_house(state@).0,
            r.1.deep_view() == rules::land_on_house(state@).1,
    {
        let mut new_state = state.clone();
        let choices = house_choices(&new_state.houses_for_sale);
        new_state.phase = TurnPhase::ChoosingAction;
        (new_state, one_event(GameEvent::ChoiceRequired { choices }))
    }

    pub(crate) fn buy_stock(state: &GameState) -> (r: (GameState, Vec<GameEvent>))
        requires
            state@.wf(),
        ensures
            r.0@ == rules::buy_stock(state@).0,
            r.1.deep_view() == rules::buy_stock(state@).1,
    {
        let mut new_state = state.clone();
        let idx: usize = new_state.current_turn;
        if new_state.players[idx].money >= rules::STOCK_COST {
            let draw: u64 = xorshift64_step(new_state.rng_seed);
            new_state.rng_seed = draw;
            new_state.players[idx].money = new_state.players[idx].money - rules::STOCK_COST;
            new_state.players[idx].stocks.push(Stock { id: stock_id(draw), name: owned("株券") });
            proof {
                let me = rules::buy_stock(state@).0.players[idx as int];
                assert(new_state.players@[idx as int]@.stocks =~= me.stocks);
                assert(new_state@.players =~= rules::buy_stock(state@).0.players);
            }
            (new_state, one_event(GameEvent::StockPurchased { player_id: mover_id(state) }))
        } else {
            (new_state, no_events())
        }
    }

    fn land_on_insurance(state: &GameState) -> (r: (GameState, Vec<GameEvent>))
        requires
            state@.wf(),
        ensures
            r.0@ == rules::land_on_insurance(state@).0,
            r.1.deep_view() == rules::land_on_insurance(state@).1,
    {
        let mut new_state = state.clone();
        let idx: usize = new_state.current_turn;
        let mut choices: Vec<GameChoice> = Vec::new();
        if !new_state.players[idx].life_insurance {
            choices.push(make_choice(owned("life"), owned("生命保険に加入")));
        }
        if !new_state.players[idx].auto_insurance {
            choices.push(make_choice(owned("auto"), owned("自動車保険に加入")));
        }
        choices.push(skip_choice("加入しない"));
        assert(choices.deep_view() =~= rules::insurance_choices(state@.current()));
        new_state.phase = TurnPhase::ChoosingAction;
        (new_state, one_event(GameEvent::ChoiceRequired { choices }))
    }

    fn land_on_branch(state: &GameState, tile: &Tile) -> (r: (GameState, Vec<GameEvent>))
        ensures
            r.0@ == rules::land_on_branch(state@, tile@).0,
            r.1.deep_view() == rules::land_on_branch(state@, tile@).1,
    {
        let mut new_state = state.clone();
        new_state.phase = TurnPhase::ChoosingPath;
        let choices = branch_choices(tile);
        (new_state, one_event(GameEvent::ChoiceRequired { choices }))
    }

    fn land_on_start(state: &GameState, tile: &Tile) -> (r: (GameState, Vec<GameEvent>))
        ensures
            r.0@ == rules::land_on_start(state@, tile@).0,
            r.1.deep_view() == rules::land_on_start(state@, tile@).1,
    {
        if tile.next.len() > 1 {
            Self::land_on_branch(state, tile)
        } else {
            (state.clone(), no_events())
        }
    }

    fn land_on_career(state: &GameState, tile: &Tile) -> (r: (GameState, Vec<GameEvent>))
        requires
            state@.wf(),
        ensures
            r.0@ == rules::land_on_career(state@, tile@).0,
            r.1.deep_view() == rules::land_on_career(state@, tile@).1,
    {
        let mut new_state = state.clone();
        let idx: usize = new_state.current_turn;
        let pool: String = match &tile.event {
            Some(TileEvent::DrawCareer { pool }) => pool.clone(),
            _ => owned("basic"),
        };
        let available = careers_of_pool(&new_state.careers, pool.as_str());
        if available.len() > 0 {
            let draw: u64 = xorshift64_step(new_state.rng_seed);
            new_state.rng_seed = draw;
            let pick: usize = (draw % (available.len() as u64)) as usize;
            let career = available[pick].clone();
            new_state.players[idx].salary = career.salary;
            new_state.players[idx].career = Some(career.clone());
            proof {
                assert(available.deep_view()[pick as int] == available@[pick as int]@);
                assert(new_state@.players =~= rules::land_on_career(state@, tile@).0.players);
            }
            let event = GameEvent::CareerAssigned { player_id: mover_id(state), career };
            (new_state, one_event(event))
        } else {
            (new_state, no_events())
        }
    }

    /// Every other player who has not retired gives `amount` to the player at
    /// `recipient_idx`.
    fn gift_from_others(state: &GameState, recipient_idx: usize, amount: i64, reason: &str) -> (r: (
        GameState,
        Vec<GameEvent>,
    ))
        requires
            recipient_idx < state@.players.len(),
        ensures
            r.0@ == rules::gift_from_others(state@, recipient_idx as int, amount, reason@).0,
            r.1.deep_view() == rules::gift_from_others(
                state@,
                recipient_idx as int,
                amount,
                reason@,
            ).1,
    {
        let mut new_state = state.clone();
        let mut events: Vec<GameEvent> = Vec::new();
        let recipient_id = state.players[recipient_idx].id.clone();
        let ghost all = state@.players;
        let ghost recipient = recipient_idx as int;
        let count: usize = state.players.len();
        let mut i: usize = 0;
        proof {
            assert(events.deep_view() =~= rules::giver_events(all, recipient, amount, reason@, 0));
            assert(rules::givers(all, recipient, 0) == 0);
            assert(amount * 0 == 0);
            assert(all[recipient].credited(0) == all[recipient]);
        }
        while i < count
            invariant
                i <= count,
                count == state.players@.len(),
                all == state@.players,
                recipient == recipient_idx as int,
                recipient < count,
                new_state.players@.len() == count,
                new_state@ == (GameStateView { players: new_state@.players, ..state@ }),
                forall|j: int|
                    0 <= j < count ==> #[trigger] new_state@.players[j] == if j == recipient {
                        all[j].credited(amount * rules::givers(all, recipient, i as int))
                    } else if j < i && rules::gives(all, recipient, j) {
                        all[j].credited(-amount)
                    } else {
                        all[j]
                    },
                events.deep_view() == rules::giver_events(all, recipient, amount, reason@, i as int),
            decreases count - i,
        {
            let ghost before = new_state@.players;
            let ghost events_before = events.deep_view();
            if i != recipient_idx && !new_state.players[i].retired {
                let giver_id = new_state.players[i].id.clone();
                new_state.players[i].money = sub_money(new_state.players[i].money, amount);
                new_state.players[recipient_idx].money = add_money(
                    new_state.players[recipient_idx].money,
                    amount,
                );
                events.push(money_event(giver_id, negate_money(amount), owned(reason)));
                proof {
                    lemma_credit_again(
                        all[recipient].money,
                        amount,
                        rules::givers(all, recipient, i as int),
                    );
                    assert(events.deep_view() =~= events_before.push(
                        money_changed(all[i as int].id, clamp_money(-amount), reason@),
                    ));
                    assert(new_state@.players =~= before.update(
                        i as int,
                        before[i as int].credited(-amount),
                    ).update(recipient, before[recipient].credited(amount as int)));
                }
            }
            i += 1;
        }
        let mut received = owned(reason);
        received.append("(受取)");
        events.push(money_event(recipient_id, gift_total(amount, count), received));
        proof {
            let expected = rules::gift_from_others(state@, recipient, amount, reason@);
            assert(new_state@.players =~= expected.0.players);
            assert(events.deep_view() =~= expected.1);
        }
        (new_state, events)
    }

    fn land_on_marry(state: &GameState) -> (r: (GameState, Vec<GameEvent>))
        requires
            state@.wf(),
        ensures
            r.0@ == rules::land_on_marry(state@).0,
            r.1.deep_view() == rules::land_on_marry(state@).1,
    {
        let mut new_state = state.clone();
        let idx: usize = new_state.current_turn;
        if !new_state.players[idx].married {
            new_state.players[idx].married = true;
            assert(new_state@.players =~= state@.players.update(
                idx as int,
                PlayerStateView { married: true, ..state@.current() },
            ));
            let mut events = one_event(GameEvent::Married { player_id: mover_id(state) });
            let (gift_state, gift_events) = Self::gift_from_others(
                &new_state,
                idx,
                rules::GIFT_AMOUNT,
                "ご祝儀",
            );
            append_events(&mut events, gift_events);
            (gift_state, events)
        } else {
            (new_state, no_events())
        }
    }

    fn land_on_baby(state: &GameState) -> (r: (GameState, Vec<GameEvent>))
        requires
            state@.wf(),
        ensures
            r.0@ == rules::land_on_baby(state@).0,
            r.1.deep_view() == rules::land_on_baby(state@).1,
    {
        let mut new_state = state.clone();
        let idx: usize = new_state.current_turn;
        if new_state.players[idx].children < rules::MAX_CHILDREN {
            let children: u8 = new_state.players[idx].children + 1;
            new_state.players[idx].children = children;
            assert(new_state@.players =~= state@.players.update(
                idx as int,
                PlayerStateView { children, ..state@.current() },
            ));
            let mut events = one_event(
                GameEvent::BabyBorn { player_id: mover_id(state), children },
            );
            let (gift_state, gift_events) = Self::gift_from_others(
                &new_state,
                idx,
                rules::GIFT_AMOUNT,
                "出産祝い",
            );
            append_events(&mut events, gift_events);
            (gift_state, events)
        } else {
            (new_state, no_events())
        }
    }

    fn land_on_lawsuit(state: &GameState) -> (r: (GameState, Vec<GameEvent>))
        ensures
            r.0@ == rules::land_on_lawsuit(state@).0,
            r.1.deep_view() == rules::land_on_lawsuit(state@).1,
    {
        let mut new_state = state.clone();
        let choices = lawsuit_choices(state);
        if choices.len() > 0 {
            new_state.phase = TurnPhase::ChoosingAction;
            (new_state, one_event(GameEvent::ChoiceRequired { choices }))
        } else {
            (new_state, no_events())
        }
    }
}

impl EventResolver for ClassicEventResolver {
    open spec fn tile_outcome(&self, state: GameStateView, tile: TileView) -> (
        GameStateView,
        Seq<GameEventView>,
    ) {
        rules::land_on(state, tile)
    }

    open spec fn payday_outcome(&self, state: GameStateView, player_index: int) -> GameStateView {
        rules::payday(state, player_index)
    }

    open spec fn lawsuit_outcome(&self, state: GameStateView, target: Seq<char>) -> (
        GameStateView,
        Seq<GameEventView>,
    ) {
        rules::lawsuit(state, target)
    }

    fn resolve_tile(&self, state: &GameState, tile: &Tile) -> (r: (GameState, Vec<GameEvent>)) {
        proof {
            rules::lemma_land_on_keeps_places(state@, tile@);
        }
        match tile.tile_type {
            TileType::Payday => Self::land_on_payday(state),
            TileType::Action => Self::land_on_action(state, tile),
            TileType::Career => Self::land_on_career(state, tile),
            TileType::House => Self::land_on_house(state),
            TileType::Marry => Self::land_on_marry(state),
            TileType::Baby => Self::land_on_baby(state),
            TileType::Stock => Self::buy_stock(state),
            TileType::Insurance => Self::land_on_insurance(state),
            TileType::Tax => Self::land_on_tax(state),
            TileType::Lawsuit => Self::land_on_lawsuit(state),
            TileType::Branch => Self::land_on_branch(state, tile),
            TileType::Retire => Self::land_on_retire(state),
            TileType::Start => Self::land_on_start(state, tile),
        }
    }

    fn resolve_payday(&self, state: &GameState, player_index: usize) -> (r: GameState) {
        proof {
            rules::lemma_payday_keeps_places(state@, player_index as int);
        }
        let mut new_state = state.clone();
        let salary: i64 = new_state.players[player_index].salary as i64;
        let money: i64 = add_money(new_state.players[player_index].money, salary);
        set_money(&mut new_state, player_index, money);
        new_state
    }

    fn resolve_lawsuit(&self, state: &GameState, target: &PlayerId) -> (r: (
        GameState,
        Vec<GameEvent>,
    )) {
        proof {
            rules::lemma_lawsuit_keeps_places(state@, target@);
        }
        let mut new_state = state.clone();
        match state.player_index(target.as_str()) {
            Some(target_idx) => {
                let current: usize = state.current_turn;
                let paid: i64 = sub_money(new_state.players[target_idx].money, rules::LAWSUIT_AMOUNT);
                set_money(&mut new_state, target_idx, paid);
                let received: i64 = add_money(
                    new_state.players[current].money,
                    rules::LAWSUIT_AMOUNT,
                );
                set_money(&mut new_state, current, received);
                let mut events = one_event(
                    money_event(target.clone(), -rules::LAWSUIT_AMOUNT, owned("訴訟(支払い)")),
                );
                let ghost first = events.deep_view();
                let received_event = money_event(
                    mover_id(state),
                    rules::LAWSUIT_AMOUNT,
                    owned("訴訟(受取)"),
                );
                events.push(received_event);
                assert(events.deep_view() =~= first.push(received_event@));
                assert(events.deep_view() =~= rules::lawsuit(state@, target@).1);
                (new_state, events)
            },
            None => (new_state, no_events()),
        }
    }
}

} // verus!
