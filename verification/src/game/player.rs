//! A player's holdings and the worth they come to at the end of a game.

use vstd::prelude::*;
use crate::game::map::{Career, CareerView, House, HouseView, InterestRate, clamp_money, clone_houses};

verus! {

/// Identifies a player.
pub type PlayerId = String;

/// A stock unit that a player holds.
#[derive(Debug)]
pub struct Stock {
    pub id: String,
    pub name: String,
}

/// The model of a stock unit.
pub struct StockView {
    pub id: Seq<char>,
    pub name: Seq<char>,
}

impl View for Stock {
    type V = StockView;

    open spec fn view(&self) -> StockView {
        StockView { id: self.id@, name: self.name@ }
    }
}

impl DeepView for Stock {
    type V = StockView;

    open spec fn deep_view(&self) -> StockView {
        self@
    }
}

impl Clone for Stock {
    fn clone(&self) -> (r: Self)
        ensures
            r@ == self@,
    {
        Stock { id: self.id.clone(), name: self.name.clone() }
    }
}

/// A note that promises its holder an amount.
#[derive(Debug)]
pub struct PromissoryNote {
    pub id: String,
    pub amount: i64,
}

/// The model of a promissory note.
pub struct PromissoryNoteView {
    pub id: Seq<char>,
    pub amount: i64,
}

impl View for PromissoryNote {
    type V = PromissoryNoteView;

    open spec fn view(&self) -> PromissoryNoteView {
        PromissoryNoteView { id: self.id@, amount: self.amount }
    }
}

impl DeepView for PromissoryNote {
    type V = PromissoryNoteView;

    open spec fn deep_view(&self) -> PromissoryNoteView {
        self@
    }
}

impl Clone for PromissoryNote {
    fn clone(&self) -> (r: Self)
        ensures
            r@ == self@,
    {
        PromissoryNote { id: self.id.clone(), amount: self.amount }
    }
}

/// One player of a game. Players are never removed, only marked retired.
#[derive(Debug)]
pub struct PlayerState {
    pub id: PlayerId,
    pub name: String,
    pub money: i64,
    pub career: Option<Career>,
    pub salary: u32,
    pub married: bool,
    pub children: u8,
    pub life_insurance: bool,
    pub auto_insurance: bool,
    pub stocks: Vec<Stock>,
    pub houses: Vec<House>,
    pub debt: u64,
    pub promissory_notes: Vec<PromissoryNote>,
    pub position: usize,
    pub retired: bool,
}

/// The model of a player.
pub struct PlayerStateView {
    pub id: Seq<char>,
    pub name: Seq<char>,
    pub money: i64,
    pub career: Option<CareerView>,
    pub salary: u32,
    pub married: bool,
    pub children: u8,
    pub life_insurance: bool,
    pub auto_insurance: bool,
    pub stocks: Seq<StockView>,
    pub houses: Seq<HouseView>,
    pub debt: u64,
    pub promissory_notes: Seq<PromissoryNoteView>,
    pub position: usize,
    pub retired: bool,
}

/// The sum of what the houses sell for.
pub open spec fn sell_prices(houses: Seq<HouseView>) -> int
    decreases houses.len(),
{
    if houses.len() == 0 {
        0
    } else {
        sell_prices(houses.drop_last()) + houses.last().sell_price
    }
}

/// The sum of what the notes promise.
pub open spec fn note_amounts(notes: Seq<PromissoryNoteView>) -> int
    decreases notes.len(),
{
    if notes.len() == 0 {
        0
    } else {
        note_amounts(notes.drop_last()) + notes.last().amount
    }
}

impl PlayerStateView {
    /// A player as a game starts: `start_money` and nothing else, on tile 0.
    pub open spec fn fresh(id: Seq<char>, name: Seq<char>, start_money: i64) -> PlayerStateView {
        PlayerStateView {
            id,
            name,
            money: start_money,
            career: None,
            salary: 0,
            married: false,
            children: 0,
            life_insurance: false,
            auto_insurance: false,
            stocks: Seq::empty(),
            houses: Seq::empty(),
            debt: 0,
            promissory_notes: Seq::empty(),
            position: 0,
            retired: false,
        }
    }

    /// The same player with `amount` added to the balance.
    pub open spec fn credited(self, amount: int) -> PlayerStateView {
        PlayerStateView { money: clamp_money(self.money + amount), ..self }
    }

    /// What the debt counts for at this rate.
    pub open spec fn debt_value(self, rate: InterestRate) -> int {
        clamp_money(rate.applied_to(self.debt)) as int
    }

    /// Money, plus what the houses sell for, plus what the notes promise, less
    /// the debt at the given rate.
    pub open spec fn total_assets(self, rate: InterestRate) -> int {
        self.money + sell_prices(self.houses) + note_amounts(self.promissory_notes)
            - self.debt_value(rate)
    }
}

impl View for PlayerState {
    type V = PlayerStateView;

    open spec fn view(&self) -> PlayerStateView {
        PlayerStateView {
            id: self.id@,
            name: self.name@,
            money: self.money,
            career: self.career.deep_view(),
            salary: self.salary,
            married: self.married,
            children: self.children,
            life_insurance: self.life_insurance,
            auto_insurance: self.auto_insurance,
            stocks: self.stocks.deep_view(),
            houses: self.houses.deep_view(),
            debt: self.debt,
            promissory_notes: self.promissory_notes.deep_view(),
            position: self.position,
            retired: self.retired,
        }
    }
}

impl DeepView for PlayerState {
    type V = PlayerStateView;

    open spec fn deep_view(&self) -> PlayerStateView {
        self@
    }
}

impl Clone for PlayerState {
    fn clone(&self) -> (r: Self)
        ensures
            r@ == self@,
    {
        let stocks = self.stocks.clone();
        assert(stocks.deep_view() =~= self.stocks.deep_view());
        let promissory_notes = self.promissory_notes.clone();
        assert(promissory_notes.deep_view() =~= self.promissory_notes.deep_view());
        PlayerState {
            id: self.id.clone(),
            name: self.name.clone(),
            money: self.money,
            career: match &self.career {
                Some(c) => Some(c.clone()),
                None => None,
            },
            salary: self.salary,
            married: self.married,
            children: self.children,
            life_insurance: self.life_insurance,
            auto_insurance: self.auto_insurance,
            stocks,
            houses: clone_houses(&self.houses),
            debt: self.debt,
            promissory_notes,
            position: self.position,
            retired: self.retired,
        }
    }
}

fn sum_sell_prices(houses: &Vec<House>) -> (r: i128)
    ensures
        r == sell_prices(houses.deep_view()),
{
    let ghost all = houses.deep_view();
    let mut acc: i128 = 0;
    let mut i: usize = 0;
    while i < houses.len()
        invariant
            i <= houses.len(),
            all == houses.deep_view(),
            acc == sell_prices(all.take(i as int)),
            -(i as int) * 0x8000_0000_0000_0000 <= acc <= (i as int) * 0x8000_0000_0000_0000,
        decreases houses.len() - i,
    {
        proof {
            assert(all.take(i + 1).drop_last() =~= all.take(i as int));
            assert(all.take(i + 1).last() == houses@[i as int]@);
        }
        acc = acc + houses[i].sell_price as i128;
        i += 1;
    }
    assert(all.take(i as int) =~= all);
    acc
}

fn sum_note_amounts(notes: &Vec<PromissoryNote>) -> (r: i128)
    ensures
        r == note_amounts(notes.deep_view()),
{
    let ghost all = notes.deep_view();
    let mut acc: i128 = 0;
    let mut i: usize = 0;
    while i < notes.len()
        invariant
            i <= notes.len(),
            all == notes.deep_view(),
            acc == note_amounts(all.take(i as int)),
            -(i as int) * 0x8000_0000_0000_0000 <= acc <= (i as int) * 0x8000_0000_0000_0000,
        decreases notes.len() - i,
    {
        proof {
            assert(all.take(i + 1).drop_last() =~= all.take(i as int));
            assert(all.take(i + 1).last() == notes@[i as int]@);
        }
        acc = acc + notes[i].amount as i128;
        i += 1;
    }
    assert(all.take(i as int) =~= all);
    acc
}

/// `a + b + c` brought into the range of balances, for a `c` of at most 65 bits.
fn clamp_sum(a: i128, b: i128, c: i128) -> (r: i64)
    requires
        -0x2_0000_0000_0000_0000 <= c <= 0x2_0000_0000_0000_0000,
    ensures
        r == clamp_money(a + b + c),
{
    if a > 0 && b > i128::MAX - a {
        i64::MAX
    } else if a < 0 && b < i128::MIN - a {
        i64::MIN
    } else {
        let s: i128 = a + b;
        if s > i128::MAX - 0x2_0000_0000_0000_0000 {
            i64::MAX
        } else if s < i128::MIN + 0x2_0000_0000_0000_0000 {
            i64::MIN
        } else {
            let t: i128 = s + c;
            if t > i64::MAX as i128 {
                i64::MAX
            } else if t < i64::MIN as i128 {
                i64::MIN
            } else {
                t as i64
            }
        }
    }
}

impl PlayerState {
    /// A player as a game starts: `start_money` and nothing else, on tile 0.
    pub fn new(id: PlayerId, name: String, start_money: i64) -> (r: PlayerState)
        ensures
            r@ == PlayerStateView::fresh(id@, name@, start_money),
    {
        let r = PlayerState {
            id,
            name,
            money: start_money,
            career: None,
            salary: 0,
            married: false,
            children: 0,
            life_insurance: false,
            auto_insurance: false,
            stocks: Vec::new(),
            houses: Vec::new(),
            debt: 0,
            promissory_notes: Vec::new(),
            position: 0,
            retired: false,
        };
        assert(r@.stocks =~= Seq::empty());
        assert(r@.houses =~= Seq::empty());
        assert(r@.promissory_notes =~= Seq::empty());
        r
    }

    /// The player's worth for the ranking, brought into the range of balances.
    pub fn total_assets(&self, interest_rate: InterestRate) -> (r: i64)
        ensures
            r == clamp_money(self@.total_assets(interest_rate)),
    {
        let house_value: i128 = sum_sell_prices(&self.houses);
        let notes_value: i128 = sum_note_amounts(&self.promissory_notes);
        let debt_value: i64 = interest_rate.apply(self.debt);
        let rest: i128 = self.money as i128 - debt_value as i128;
        clamp_sum(house_value, notes_value, rest)
    }
}

} // verus!
