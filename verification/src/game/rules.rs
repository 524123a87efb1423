//! The classic rules, stated over the models of the snapshot: what landing on
//! each kind of tile does, what a pay day and a lawsuit do, and how gifts are
//! collected. The executable resolver is proved against these.

use vstd::prelude::*;
use crate::game::map::{CareerView, HouseView, TileEventView, TileType, TileView, clamp_money};
use crate::game::player::{PlayerStateView, StockView};
use crate::game::state::{
    GameChoiceView, GameEventView, GameStateView, InsuranceType, PlayerActionView, TurnPhase,
    xorshift64,
};
use crate::text::{decimal, decimal_nat};

verus! {

/// What each other player gives at a wedding or a birth.
pub const GIFT_AMOUNT: i64 = 5000;

/// What a stock unit costs.
pub const STOCK_COST: i64 = 10000;

/// What a lawsuit moves from the target to the plaintiff.
pub const LAWSUIT_AMOUNT: i64 = 100000;

/// The tax that is due where a tenth of the salary is nothing.
pub const MINIMUM_TAX: i64 = 5000;

/// The most children a player can have.
pub const MAX_CHILDREN: u8 = 6;

/// The event that reports a change of a balance.
pub open spec fn money_changed(player_id: Seq<char>, amount: i64, reason: Seq<char>) -> GameEventView {
    GameEventView::MoneyChanged { player_id, amount, reason }
}

/// A snapshot and no event.
pub open spec fn unchanged(s: GameStateView) -> (GameStateView, Seq<GameEventView>) {
    (s, Seq::empty())
}

// ------------------------------------------------------------------
// Pay day
// ------------------------------------------------------------------

/// Player `i` is paid the salary.
pub open spec fn payday(s: GameStateView, i: int) -> GameStateView {
    s.with_player(i, s.players[i].credited(s.players[i].salary as int))
}

/// The mover stops on a pay day.
pub open spec fn land_on_payday(s: GameStateView) -> (GameStateView, Seq<GameEventView>) {
    (
        payday(s, s.current_turn),
        seq![money_changed(s.current().id, s.current().salary as i64, "給料日"@)],
    )
}

// ------------------------------------------------------------------
// Action
// ------------------------------------------------------------------

/// The mover stops on an action tile: the tile's literal amount is credited,
/// or debited if it is negative.
pub open spec fn land_on_action(s: GameStateView, tile: TileView) -> (
    GameStateView,
    Seq<GameEventView>,
) {
    match tile.event {
        Some(TileEventView::Money { amount, text }) => (
            s.with_player(s.current_turn, s.current().credited(amount as int)),
            seq![money_changed(s.current().id, amount, text)],
        ),
        _ => unchanged(s),
    }
}

// ------------------------------------------------------------------
// Career
// ------------------------------------------------------------------

/// The pool that a career tile draws from.
pub open spec fn career_pool(tile: TileView) -> Seq<char> {
    match tile.event {
        Some(TileEventView::DrawCareer { pool }) => pool,
        _ => "basic"@,
    }
}

/// The careers of a pool, in the order of the asset.
pub open spec fn careers_of_pool(careers: Seq<CareerView>, pool: Seq<char>) -> Seq<CareerView> {
    careers.filter(|c: CareerView| c.pool == pool)
}

/// The mover stops on a career tile: one draw picks a career of the pool.
pub open spec fn land_on_career(s: GameStateView, tile: TileView) -> (
    GameStateView,
    Seq<GameEventView>,
) {
    let available = careers_of_pool(s.careers, career_pool(tile));
    if available.len() == 0 {
        unchanged(s)
    } else {
        let draw = xorshift64(s.rng_seed);
        let career = available[(draw as int) % (available.len() as int)];
        let me = PlayerStateView { salary: career.salary, career: Some(career), ..s.current() };
        (
            s.after_draw().with_player(s.current_turn, me),
            seq![GameEventView::CareerAssigned { player_id: s.current().id, career }],
        )
    }
}

// ------------------------------------------------------------------
// House
// ------------------------------------------------------------------

/// The entry that declines an offer.
pub open spec fn skip_choice(label: Seq<char>) -> GameChoiceView {
    GameChoiceView { id: "skip"@, label }
}

/// How a house is offered: its name, its price and what it sells for.
pub open spec fn house_label(h: HouseView) -> Seq<char> {
    h.name + " ($"@ + decimal(h.price as int) + " / 売却$"@ + decimal(h.sell_price as int) + ")"@
}

/// The entry that offers a house.
pub open spec fn house_choice(h: HouseView) -> GameChoiceView {
    GameChoiceView { id: h.id, label: house_label(h) }
}

/// One entry for each house on sale, then the entry that declines.
pub open spec fn house_choices(houses: Seq<HouseView>) -> Seq<GameChoiceView> {
    houses.map_values(|h: HouseView| house_choice(h)).push(skip_choice("購入しない"@))
}

/// The mover stops on a house tile.
pub open spec fn land_on_house(s: GameStateView) -> (GameStateView, Seq<GameEventView>) {
    (
        s.with_phase(TurnPhase::ChoosingAction),
        seq![GameEventView::ChoiceRequired { choices: house_choices(s.houses_for_sale) }],
    )
}

// ------------------------------------------------------------------
// Gifts: wedding and birth
// ------------------------------------------------------------------

/// Player `i` gives to `recipient`: every other player who has not retired.
pub open spec fn gives(players: Seq<PlayerStateView>, recipient: int, i: int) -> bool {
    i != recipient && !players[i].retired
}

/// How many of the first `n` players give.
pub open spec fn givers(players: Seq<PlayerStateView>, recipient: int, n: int) -> nat
    decreases n,
{
    if n <= 0 {
        0
    } else {
        givers(players, recipient, n - 1) + if gives(players, recipient, n - 1) {
            1nat
        } else {
            0nat
        }
    }
}

/// The events of the givers among the first `n` players, in turn order.
pub open spec fn giver_events(
    players: Seq<PlayerStateView>,
    recipient: int,
    amount: i64,
    reason: Seq<char>,
    n: int,
) -> Seq<GameEventView>
    decreases n,
{
    if n <= 0 {
        Seq::empty()
    } else {
        let earlier = giver_events(players, recipient, amount, reason, n - 1);
        if gives(players, recipient, n - 1) {
            earlier.push(money_changed(players[n - 1].id, clamp_money(-amount), reason))
        } else {
            earlier
        }
    }
}

/// The players after each giver has paid `amount` and the recipient has
/// received the sum.
pub open spec fn gift_players(players: Seq<PlayerStateView>, recipient: int, amount: i64) -> Seq<
    PlayerStateView,
> {
    Seq::new(
        players.len(),
        |i: int|
            if i == recipient {
                players[i].credited(amount * givers(players, recipient, players.len() as int))
            } else if gives(players, recipient, i) {
                players[i].credited(-amount)
            } else {
                players[i]
            },
    )
}

/// Every other player who has not retired gives `amount` to `recipient`. The
/// last event reports `amount` for each other player, retired or not.
pub open spec fn gift_from_others(
    s: GameStateView,
    recipient: int,
    amount: i64,
    reason: Seq<char>,
) -> (GameStateView, Seq<GameEventView>) {
    (
        GameStateView { players: gift_players(s.players, recipient, amount), ..s },
        giver_events(s.players, recipient, amount, reason, s.players.len() as int).push(
            money_changed(
                s.players[recipient].id,
                clamp_money(amount * (s.players.len() - 1)),
                reason + "(受取)"@,
            ),
        ),
    )
}

/// The mover stops on a wedding tile.
pub open spec fn land_on_marry(s: GameStateView) -> (GameStateView, Seq<GameEventView>) {
    if s.current().married {
        unchanged(s)
    } else {
        let me = PlayerStateView { married: true, ..s.current() };
        let wed = s.with_player(s.current_turn, me);
        let (after, gifts) = gift_from_others(wed, s.current_turn, GIFT_AMOUNT, "ご祝儀"@);
        (after, seq![GameEventView::Married { player_id: me.id }] + gifts)
    }
}

/// The mover stops on a birth tile.
pub open spec fn land_on_baby(s: GameStateView) -> (GameStateView, Seq<GameEventView>) {
    if s.current().children >= MAX_CHILDREN {
        unchanged(s)
    } else {
        let children = (s.current().children + 1) as u8;
        let me = PlayerStateView { children, ..s.current() };
        let born = s.with_player(s.current_turn, me);
        let (after, gifts) = gift_from_others(born, s.current_turn, GIFT_AMOUNT, "出産祝い"@);
        (after, seq![GameEventView::BabyBorn { player_id: me.id, children }] + gifts)
    }
}

// ------------------------------------------------------------------
// Stock
// ------------------------------------------------------------------

/// The stock unit that a draw mints.
pub open spec fn minted_stock(draw: u64) -> StockView {
    StockView { id: "stock_"@ + decimal_nat((draw % 100) as nat), name: "株券"@ }
}

/// The mover buys a stock unit if the balance allows it: one draw names it.
pub open spec fn buy_stock(s: GameStateView) -> (GameStateView, Seq<GameEventView>) {
    if s.current().money < STOCK_COST {
        unchanged(s)
    } else {
        let me = PlayerStateView {
            money: (s.current().money - STOCK_COST) as i64,
            stocks: s.current().stocks.push(minted_stock(xorshift64(s.rng_seed))),
            ..s.current()
        };
        (
            s.after_draw().with_player(s.current_turn, me),
            seq![GameEventView::StockPurchased { player_id: me.id }],
        )
    }
}

// ------------------------------------------------------------------
// Buying a house, repaying debt
// ------------------------------------------------------------------

/// The mover buys the first house on sale with this id, if there is one and
/// the balance covers its price. The house is then the buyer's and no longer
/// on sale.
pub open spec fn buy_house(s: GameStateView, house_id: Seq<char>) -> (
    GameStateView,
    Seq<GameEventView>,
) {
    match crate::search::first_index(s.houses_for_sale, |h: HouseView| h.id == house_id) {
        Some(i) if s.current().money >= s.houses_for_sale[i].price => {
            let house = s.houses_for_sale[i];
            let me = PlayerStateView {
                money: clamp_money(s.current().money - house.price),
                houses: s.current().houses.push(house),
                ..s.current()
            };
            (
                GameStateView {
                    houses_for_sale: s.houses_for_sale.remove(i),
                    ..s.with_player(s.current_turn, me)
                },
                seq![
                    money_changed(me.id, clamp_money(-house.price), house.name + "購入"@),
                    GameEventView::HousePurchased { player_id: me.id, house },
                ],
            )
        },
        _ => unchanged(s),
    }
}

/// What it costs to repay one loan unit.
pub open spec fn repayment(s: GameStateView) -> i64 {
    clamp_money(s.loan_interest_rate.applied_to(s.loan_unit))
}

/// The mover repays one loan unit, if that much is owed and the balance covers
/// the repayment.
pub open spec fn repay_debt(s: GameStateView) -> (GameStateView, Seq<GameEventView>) {
    let repay = repayment(s);
    if s.current().debt >= s.loan_unit && s.current().money >= repay {
        let me = PlayerStateView {
            money: (s.current().money - repay) as i64,
            debt: (s.current().debt - s.loan_unit) as u64,
            ..s.current()
        };
        (
            s.with_player(s.current_turn, me),
            seq![money_changed(me.id, (-repay) as i64, "借金返済"@)],
        )
    } else {
        unchanged(s)
    }
}

// ------------------------------------------------------------------
// Insurance
// ------------------------------------------------------------------

/// The player holds an insurance of this kind.
pub open spec fn holds_insurance(p: PlayerStateView, kind: InsuranceType) -> bool {
    match kind {
        InsuranceType::Life => p.life_insurance,
        InsuranceType::Auto => p.auto_insurance,
    }
}

/// The mover takes out an insurance of a kind that they do not hold; nothing
/// is charged. A kind that is held already is not on offer: choosing it is a
/// pass.
pub open spec fn buy_insurance(s: GameStateView, kind: InsuranceType) -> (
    GameStateView,
    Seq<GameEventView>,
) {
    if holds_insurance(s.current(), kind) {
        unchanged(s)
    } else {
        let me = match kind {
            InsuranceType::Life => PlayerStateView { life_insurance: true, ..s.current() },
            InsuranceType::Auto => PlayerStateView { auto_insurance: true, ..s.current() },
        };
        (
            s.with_player(s.current_turn, me),
            seq![GameEventView::InsurancePurchased { player_id: me.id, insurance_type: kind }],
        )
    }
}

/// The kinds of insurance the player does not hold yet, then the entry that
/// declines.
pub open spec fn insurance_choices(p: PlayerStateView) -> Seq<GameChoiceView> {
    let life = if p.life_insurance {
        Seq::<GameChoiceView>::empty()
    } else {
        seq![GameChoiceView { id: "life"@, label: "生命保険に加入"@ }]
    };
    let auto = if p.auto_insurance {
        Seq::<GameChoiceView>::empty()
    } else {
        seq![GameChoiceView { id: "auto"@, label: "自動車保険に加入"@ }]
    };
    (life + auto).push(skip_choice("加入しない"@))
}

/// The mover stops on an insurance tile.
pub open spec fn land_on_insurance(s: GameStateView) -> (GameStateView, Seq<GameEventView>) {
    (
        s.with_phase(TurnPhase::ChoosingAction),
        seq![GameEventView::ChoiceRequired { choices: insurance_choices(s.current()) }],
    )
}

// ------------------------------------------------------------------
// Tax
// ------------------------------------------------------------------

/// A tenth of the salary, rounded down; the minimum tax where that is nothing.
pub open spec fn tax_due(salary: u32) -> i64 {
    if salary / 10 > 0 {
        (salary / 10) as i64
    } else {
        MINIMUM_TAX
    }
}

/// The mover stops on a tax tile.
pub open spec fn land_on_tax(s: GameStateView) -> (GameStateView, Seq<GameEventView>) {
    let tax = tax_due(s.current().salary);
    (
        s.with_player(s.current_turn, s.current().credited(-tax)),
        seq![money_changed(s.current().id, (-tax) as i64, "税金"@)],
    )
}

// ------------------------------------------------------------------
// Lawsuit
// ------------------------------------------------------------------

/// The entry that names a player to sue.
pub open spec fn lawsuit_choice(p: PlayerStateView) -> GameChoiceView {
    GameChoiceView { id: p.id, label: p.name + "を訴える"@ }
}

/// The entries for those of the first `n` players that the mover can sue:
/// every other player who has not retired.
pub open spec fn lawsuit_choices(players: Seq<PlayerStateView>, mover: int, n: int) -> Seq<
    GameChoiceView,
>
    decreases n,
{
    if n <= 0 {
        Seq::empty()
    } else {
        let earlier = lawsuit_choices(players, mover, n - 1);
        if gives(players, mover, n - 1) {
            earlier.push(lawsuit_choice(players[n - 1]))
        } else {
            earlier
        }
    }
}

/// The mover stops on a lawsuit tile: a choice, unless nobody can be sued.
pub open spec fn land_on_lawsuit(s: GameStateView) -> (GameStateView, Seq<GameEventView>) {
    let choices = lawsuit_choices(s.players, s.current_turn, s.players.len() as int);
    if choices.len() == 0 {
        unchanged(s)
    } else {
        (s.with_phase(TurnPhase::ChoosingAction), seq![GameEventView::ChoiceRequired { choices }])
    }
}

/// The plaintiff is the player who has the turn; the first player with the
/// target's id pays. An id that no player has changes nothing.
pub open spec fn lawsuit(s: GameStateView, target: Seq<char>) -> (
    GameStateView,
    Seq<GameEventView>,
) {
    match s.player_index(target) {
        None => unchanged(s),
        Some(t) => {
            let paid = s.with_player(t, s.players[t].credited(-LAWSUIT_AMOUNT));
            let received = paid.with_player(
                s.current_turn,
                paid.current().credited(LAWSUIT_AMOUNT as int),
            );
            (
                received,
                seq![
                    money_changed(target, (-LAWSUIT_AMOUNT) as i64, "訴訟(支払い)"@),
                    money_changed(s.current().id, LAWSUIT_AMOUNT, "訴訟(受取)"@),
                ],
            )
        },
    }
}

// ------------------------------------------------------------------
// Branch, start, retire
// ------------------------------------------------------------------

/// The label of the `i`-th way out of a branch: the tile's own, or a numbered
/// one where the tile gives none.
pub open spec fn branch_label(labels: Option<Seq<Seq<char>>>, i: int) -> Seq<char> {
    match labels {
        Some(l) if i < l.len() => l[i],
        _ => "道 "@ + decimal_nat((i + 1) as nat),
    }
}

/// One entry for each successor of the tile, named by its place.
pub open spec fn branch_choices(tile: TileView) -> Seq<GameChoiceView> {
    Seq::new(
        tile.next.len(),
        |i: int| GameChoiceView { id: decimal_nat(i as nat), label: branch_label(tile.labels, i) },
    )
}

/// The mover stops on a branch.
pub open spec fn land_on_branch(s: GameStateView, tile: TileView) -> (
    GameStateView,
    Seq<GameEventView>,
) {
    (
        s.with_phase(TurnPhase::ChoosingPath),
        seq![GameEventView::ChoiceRequired { choices: branch_choices(tile) }],
    )
}

/// The mover stops on the start tile: a branch if it has more than one
/// successor, nothing otherwise.
pub open spec fn land_on_start(s: GameStateView, tile: TileView) -> (
    GameStateView,
    Seq<GameEventView>,
) {
    if tile.next.len() > 1 {
        land_on_branch(s, tile)
    } else {
        unchanged(s)
    }
}

/// The mover stops on the retirement tile.
pub open spec fn land_on_retire(s: GameStateView) -> (GameStateView, Seq<GameEventView>) {
    (
        s.with_player(s.current_turn, PlayerStateView { retired: true, ..s.current() }),
        seq![GameEventView::PlayerRetired { player_id: s.current().id }],
    )
}

// ------------------------------------------------------------------
// The table of tile effects
// ------------------------------------------------------------------

/// What landing on `tile` does to the snapshot, and what it reports.
pub open spec fn land_on(s: GameStateView, tile: TileView) -> (GameStateView, Seq<GameEventView>) {
    match tile.tile_type {
        TileType::Payday => land_on_payday(s),
        TileType::Action => land_on_action(s, tile),
        TileType::Career => land_on_career(s, tile),
        TileType::House => land_on_house(s),
        TileType::Marry => land_on_marry(s),
        TileType::Baby => land_on_baby(s),
        TileType::Stock => buy_stock(s),
        TileType::Insurance => land_on_insurance(s),
        TileType::Tax => land_on_tax(s),
        TileType::Lawsuit => land_on_lawsuit(s),
        TileType::Branch => land_on_branch(s, tile),
        TileType::Retire => land_on_retire(s),
        TileType::Start => land_on_start(s, tile),
    }
}

/// What a player's choice does by the classic rules, before the turn ends.
pub open spec fn chosen(s: GameStateView, action: PlayerActionView) -> (
    GameStateView,
    Seq<GameEventView>,
) {
    match action {
        PlayerActionView::BuyHouse { house_id } => buy_house(s, house_id),
        PlayerActionView::BuyInsurance { insurance_type } => buy_insurance(s, insurance_type),
        PlayerActionView::SkipAction => unchanged(s),
        PlayerActionView::SelectLawsuitTarget { target_id } => lawsuit(s, target_id),
        PlayerActionView::RepayDebt => repay_debt(s),
        PlayerActionView::BuyStock => buy_stock(s),
    }
}

/// What every operation keeps: the players are the same in number, and each
/// seat holds the player with the same id.
pub open spec fn same_seats(before: GameStateView, after: GameStateView) -> bool {
    &&& after.players.len() == before.players.len()
    &&& forall|i: int|
        0 <= i < before.players.len() ==> (#[trigger] after.players[i]).id == before.players[i].id
}

/// What a resolver owes the engine: the seats, the turn and the board stay as
/// they are, and players who stood on the board still do.
pub open spec fn keeps_table(before: GameStateView, after: GameStateView) -> bool {
    &&& same_seats(before, after)
    &&& after.current_turn == before.current_turn
    &&& after.board == before.board
    &&& before.on_board() ==> after.on_board()
}

/// Nobody has moved: the seats, the turn and the board are as before, and
/// every player stands where they stood.
pub open spec fn same_places(before: GameStateView, after: GameStateView) -> bool {
    &&& same_seats(before, after)
    &&& after.current_turn == before.current_turn
    &&& after.board == before.board
    &&& forall|i: int|
        0 <= i < before.players.len() ==> (#[trigger] after.players[i]).position
            == before.players[i].position
}

/// Where nobody has moved, the table is kept.
pub proof fn lemma_same_places_keeps_table(before: GameStateView, after: GameStateView)
    requires
        same_places(before, after),
    ensures
        keeps_table(before, after),
{
    if before.on_board() {
        assert forall|i: int| 0 <= i < after.players.len() implies after.board.has_tile(
            (#[trigger] after.players[i]).position,
        ) by {
            assert(before.board.has_tile(before.players[i].position));
        }
    }
}

/// Landing on a tile moves nobody.
pub proof fn lemma_land_on_keeps_places(s: GameStateView, tile: TileView)
    requires
        s.wf(),
    ensures
        same_places(s, land_on(s, tile).0),
        keeps_table(s, land_on(s, tile).0),
{
    lemma_same_places_keeps_table(s, land_on(s, tile).0);
}

/// A pay day moves nobody.
pub proof fn lemma_payday_keeps_places(s: GameStateView, i: int)
    requires
        0 <= i < s.players.len(),
    ensures
        same_places(s, payday(s, i)),
        keeps_table(s, payday(s, i)),
{
    lemma_same_places_keeps_table(s, payday(s, i));
}

/// A lawsuit moves nobody.
pub proof fn lemma_lawsuit_keeps_places(s: GameStateView, target: Seq<char>)
    requires
        s.wf(),
    ensures
        same_places(s, lawsuit(s, target).0),
        keeps_table(s, lawsuit(s, target).0),
{
    crate::search::lemma_first_index_holds(s.players, |p: PlayerStateView| p.id == target);
    lemma_same_places_keeps_table(s, lawsuit(s, target).0);
}

/// Keeping the table carries over from step to step.
pub proof fn lemma_keeps_table_twice(a: GameStateView, b: GameStateView, c: GameStateView)
    requires
        keeps_table(a, b),
        keeps_table(b, c),
    ensures
        keeps_table(a, c),
{
}

/// The snapshot in which the player who has the turn stands on tile `to`.
pub open spec fn moved_to(s: GameStateView, to: usize) -> GameStateView {
    s.with_player(s.current_turn, PlayerStateView { position: to, ..s.current() })
}

/// A move along an edge of the board keeps the table: on a closed board the
/// successor of a tile is a tile.
pub proof fn lemma_move_keeps_table(s: GameStateView, k: int)
    requires
        s.wf(),
        s.board.tile(s.current().position) matches Some(tile) && 0 <= k < tile.next.len(),
    ensures
        keeps_table(s, moved_to(s, s.board.tile(s.current().position)->0.next[k])),
{
    let tile = s.board.tile(s.current().position)->0;
    let after = moved_to(s, tile.next[k]);
    s.board.lemma_tile_lookup(s.current().position);
    if s.on_board() {
        let i = s.board.tile_index(s.current().position)->0;
        assert(s.board.has_tile(s.board.tiles[i].next[k]));
        assert forall|j: int| 0 <= j < after.players.len() implies after.board.has_tile(
            (#[trigger] after.players[j]).position,
        ) by {
            if j != s.current_turn {
                assert(s.board.has_tile(s.players[j].position));
            }
        }
    }
}

/// What a player chooses where a tile offers a choice moves nobody.
pub proof fn lemma_choices_keep_places(s: GameStateView, house_id: Seq<char>, kind: InsuranceType)
    requires
        s.wf(),
    ensures
        same_places(s, buy_house(s, house_id).0),
        same_places(s, buy_insurance(s, kind).0),
        same_places(s, repay_debt(s).0),
        same_places(s, buy_stock(s).0),
{
}

} // verus!
