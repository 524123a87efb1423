//! The map asset: the tiles, careers, houses and loan terms that a game starts
//! from. Each type that owns text or lists has a view, its mathematical model,
//! which the contracts speak of.

use vstd::prelude::*;

verus! {

/// Where a tile is drawn. The two coordinates are kept as the IEEE 754 bit
/// patterns of the asset's numbers; the rules never compute with them.
#[derive(Clone, Copy, Debug, PartialEq, Eq, Structural)]
pub struct Position {
    pub x_bits: u64,
    pub y_bits: u64,
}

/// What kind of tile a player stands on.
#[derive(Clone, Copy, Debug, PartialEq, Eq, Structural)]
pub enum TileType {
    Start,
    Payday,
    Action,
    Career,
    House,
    Marry,
    Baby,
    Stock,
    Insurance,
    Tax,
    Lawsuit,
    Branch,
    Retire,
}

/// The literal effect that a tile of the asset may carry.
#[derive(Debug)]
pub enum TileEvent {
    Money { amount: i64, text: String },
    DrawCareer { pool: String },
}

/// The model of a tile's literal effect.
pub enum TileEventView {
    Money { amount: i64, text: Seq<char> },
    DrawCareer { pool: Seq<char> },
}

impl View for TileEvent {
    type V = TileEventView;

    open spec fn view(&self) -> TileEventView {
        match self {
            TileEvent::Money { amount, text } => TileEventView::Money { amount: *amount, text: text@ },
            TileEvent::DrawCareer { pool } => TileEventView::DrawCareer { pool: pool@ },
        }
    }
}

impl DeepView for TileEvent {
    type V = TileEventView;

    open spec fn deep_view(&self) -> TileEventView {
        self@
    }
}

impl Clone for TileEvent {
    fn clone(&self) -> (r: Self)
        ensures
            r@ == self@,
    {
        match self {
            TileEvent::Money { amount, text } => TileEvent::Money { amount: *amount, text: text.clone() },
            TileEvent::DrawCareer { pool } => TileEvent::DrawCareer { pool: pool.clone() },
        }
    }
}

/// A career of the asset's pool.
#[derive(Debug)]
pub struct Career {
    pub id: String,
    pub name: String,
    pub salary: u32,
    pub pool: String,
}

/// The model of a career.
pub struct CareerView {
    pub id: Seq<char>,
    pub name: Seq<char>,
    pub salary: u32,
    pub pool: Seq<char>,
}

impl View for Career {
    type V = CareerView;

    open spec fn view(&self) -> CareerView {
        CareerView { id: self.id@, name: self.name@, salary: self.salary, pool: self.pool@ }
    }
}

impl DeepView for Career {
    type V = CareerView;

    open spec fn deep_view(&self) -> CareerView {
        self@
    }
}

impl Clone for Career {
    fn clone(&self) -> (r: Self)
        ensures
            r@ == self@,
    {
        Career {
            id: self.id.clone(),
            name: self.name.clone(),
            salary: self.salary,
            pool: self.pool.clone(),
        }
    }
}

/// A house of the asset's catalog.
#[derive(Debug)]
pub struct House {
    pub id: String,
    pub name: String,
    pub price: i64,
    pub sell_price: i64,
}

/// The model of a house.
pub struct HouseView {
    pub id: Seq<char>,
    pub name: Seq<char>,
    pub price: i64,
    pub sell_price: i64,
}

impl View for House {
    type V = HouseView;

    open spec fn view(&self) -> HouseView {
        HouseView { id: self.id@, name: self.name@, price: self.price, sell_price: self.sell_price }
    }
}

impl DeepView for House {
    type V = HouseView;

    open spec fn deep_view(&self) -> HouseView {
        self@
    }
}

impl Clone for House {
    fn clone(&self) -> (r: Self)
        ensures
            r@ == self@,
    {
        House {
            id: self.id.clone(),
            name: self.name.clone(),
            price: self.price,
            sell_price: self.sell_price,
        }
    }
}

/// One tile as the asset lists it.
#[derive(Debug)]
pub struct TileData {
    pub id: usize,
    pub tile_type: TileType,
    pub position: Position,
    pub next: Vec<usize>,
    pub event: Option<TileEvent>,
    pub labels: Option<Vec<String>>,
}

/// The model of a tile, of the asset or of the board.
pub struct TileView {
    pub id: usize,
    pub tile_type: TileType,
    pub position: Position,
    pub next: Seq<usize>,
    pub event: Option<TileEventView>,
    pub labels: Option<Seq<Seq<char>>>,
}

impl View for TileData {
    type V = TileView;

    open spec fn view(&self) -> TileView {
        TileView {
            id: self.id,
            tile_type: self.tile_type,
            position: self.position,
            next: self.next@,
            event: self.event.deep_view(),
            labels: self.labels.deep_view(),
        }
    }
}

impl DeepView for TileData {
    type V = TileView;

    open spec fn deep_view(&self) -> TileView {
        self@
    }
}

/// Copies a list of strings.
pub(crate) fn clone_strings(v: &Vec<String>) -> (r: Vec<String>)
    ensures
        r.deep_view() == v.deep_view(),
{
    let r = v.clone();
    assert(r.deep_view() =~= v.deep_view());
    r
}

/// Copies the successors of a tile.
pub(crate) fn clone_ids(v: &Vec<usize>) -> (r: Vec<usize>)
    ensures
        r@ == v@,
{
    let r = v.clone();
    assert(r@ =~= v@);
    r
}

fn clone_event(e: &Option<TileEvent>) -> (r: Option<TileEvent>)
    ensures
        r.deep_view() == e.deep_view(),
{
    match e {
        Some(ev) => Some(ev.clone()),
        None => None,
    }
}

fn clone_labels(l: &Option<Vec<String>>) -> (r: Option<Vec<String>>)
    ensures
        r.deep_view() == l.deep_view(),
{
    match l {
        Some(v) => Some(clone_strings(v)),
        None => None,
    }
}

impl Clone for TileData {
    fn clone(&self) -> (r: Self)
        ensures
            r@ == self@,
    {
        TileData {
            id: self.id,
            tile_type: self.tile_type,
            position: self.position,
            next: clone_ids(&self.next),
            event: clone_event(&self.event),
            labels: clone_labels(&self.labels),
        }
    }
}

/// The largest and smallest balance; sums of money stop there.
pub open spec fn clamp_money(v: int) -> i64 {
    if v > i64::MAX {
        i64::MAX
    } else if v < i64::MIN {
        i64::MIN
    } else {
        v as i64
    }
}

/// `balance + amount`, stopped at the ends of the range of balances.
pub fn add_money(balance: i64, amount: i64) -> (r: i64)
    ensures
        r == clamp_money(balance + amount),
{
    if amount >= 0 {
        if balance > i64::MAX - amount {
            i64::MAX
        } else {
            balance + amount
        }
    } else {
        if balance < i64::MIN - amount {
            i64::MIN
        } else {
            balance + amount
        }
    }
}

/// `balance - amount`, stopped at the ends of the range of balances.
pub fn sub_money(balance: i64, amount: i64) -> (r: i64)
    ensures
        r == clamp_money(balance - amount),
{
    if amount >= 0 {
        if balance < i64::MIN + amount {
            i64::MIN
        } else {
            balance - amount
        }
    } else {
        if balance > i64::MAX + amount {
            i64::MAX
        } else {
            balance - amount
        }
    }
}

/// `-amount`, stopped at the largest balance.
pub fn negate_money(amount: i64) -> (r: i64)
    ensures
        r == clamp_money(-amount),
{
    if amount == i64::MIN {
        i64::MAX
    } else {
        -amount
    }
}

/// The factor by which a debt counts against its holder, in hundredths of a
/// percent: 12500 is 1.25.
#[derive(Clone, Copy, Debug, PartialEq, Eq, Structural)]
pub struct InterestRate {
    pub basis_points: u32,
}

impl InterestRate {
    /// What `principal` comes to at this rate, rounded down.
    pub open spec fn applied_to(self, principal: u64) -> int {
        principal * self.basis_points / 10000
    }

    /// What `principal` comes to at this rate, rounded down and stopped at the
    /// largest balance.
    pub fn apply(self, principal: u64) -> (r: i64)
        ensures
            r == clamp_money(self.applied_to(principal)),
    {
        assert(principal * self.basis_points <= 0xffff_ffff_ffff_ffff * 0xffff_ffff) by (nonlinear_arith)
            requires
                principal <= 0xffff_ffff_ffff_ffff,
                self.basis_points <= 0xffff_ffff,
        ;
        let product: u128 = (principal as u128) * (self.basis_points as u128);
        let scaled: u128 = product / 10000;
        if scaled > i64::MAX as u128 {
            i64::MAX
        } else {
            scaled as i64
        }
    }
}

/// A map asset: what a room loads when its game starts.
#[derive(Debug)]
pub struct MapData {
    pub id: String,
    pub name: String,
    pub version: String,
    pub start_money: i64,
    pub loan_unit: u64,
    pub loan_interest_rate: InterestRate,
    pub tiles: Vec<TileData>,
    pub careers: Vec<Career>,
    pub houses: Vec<House>,
}

/// The model of a map asset.
pub struct MapDataView {
    pub id: Seq<char>,
    pub name: Seq<char>,
    pub version: Seq<char>,
    pub start_money: i64,
    pub loan_unit: u64,
    pub loan_interest_rate: InterestRate,
    pub tiles: Seq<TileView>,
    pub careers: Seq<CareerView>,
    pub houses: Seq<HouseView>,
}

impl View for MapData {
    type V = MapDataView;

    open spec fn view(&self) -> MapDataView {
        MapDataView {
            id: self.id@,
            name: self.name@,
            version: self.version@,
            start_money: self.start_money,
            loan_unit: self.loan_unit,
            loan_interest_rate: self.loan_interest_rate,
            tiles: self.tiles.deep_view(),
            careers: self.careers.deep_view(),
            houses: self.houses.deep_view(),
        }
    }
}

impl DeepView for MapData {
    type V = MapDataView;

    open spec fn deep_view(&self) -> MapDataView {
        self@
    }
}

/// Copies a list of careers.
pub(crate) fn clone_careers(v: &Vec<Career>) -> (r: Vec<Career>)
    ensures
        r.deep_view() == v.deep_view(),
{
    let r = v.clone();
    assert(r.deep_view() =~= v.deep_view());
    r
}

/// Copies a list of houses.
pub(crate) fn clone_houses(v: &Vec<House>) -> (r: Vec<House>)
    ensures
        r.deep_view() == v.deep_view(),
{
    let r = v.clone();
    assert(r.deep_view() =~= v.deep_view());
    r
}

impl Clone for MapData {
    fn clone(&self) -> (r: Self)
        ensures
            r@ == self@,
    {
        let tiles = self.tiles.clone();
        assert(tiles.deep_view() =~= self.tiles.deep_view());
        MapData {
            id: self.id.clone(),
            name: self.name.clone(),
            version: self.version.clone(),
            start_money: self.start_money,
            loan_unit: self.loan_unit,
            loan_interest_rate: self.loan_interest_rate,
            tiles,
            careers: clone_careers(&self.careers),
            houses: clone_houses(&self.houses),
        }
    }
}

} // verus!
