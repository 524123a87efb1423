use nine_life::game::board::Tile;
use nine_life::game::engine::ClassicGameEngine;
use nine_life::game::turns::INITIAL_SEED;
use nine_life::game::events::{ClassicEventResolver, StandardRoulette};
use nine_life::game::map::{
    Career, House, InterestRate, MapData, Position, TileData, TileEvent, TileType,
};
use nine_life::game::player::{PlayerState, PromissoryNote};
use nine_life::game::state::{
    xorshift64_step, GameEvent, GameState, InsuranceType, PlayerAction, TurnPhase,
};
use nine_life::game::traits::{EventResolver, GameEngine, Roulette};

fn at(x: f64, y: f64) -> Position {
    Position { x_bits: x.to_bits(), y_bits: y.to_bits() }
}

fn tile(id: usize, tile_type: TileType, next: Vec<usize>) -> TileData {
    TileData { id, tile_type, position: at(id as f64, 0.0), next, event: None, labels: None }
}

fn sample_map() -> MapData {
    MapData {
        id: "test".to_string(),
        name: "Test Map".to_string(),
        version: "1.0".to_string(),
        start_money: 10000,
        loan_unit: 20000,
        loan_interest_rate: InterestRate { basis_points: 12500 },
        tiles: vec![
            TileData {
                id: 0,
                tile_type: TileType::Start,
                position: at(0.0, 0.0),
                next: vec![1],
                event: None,
                labels: None,
            },
            TileData {
                id: 1,
                tile_type: TileType::Payday,
                position: at(1.0, 0.0),
                next: vec![2],
                event: None,
                labels: None,
            },
            TileData {
                id: 2,
                tile_type: TileType::Retire,
                position: at(2.0, 0.0),
                next: vec![],
                event: None,
                labels: None,
            },
        ],
        careers: vec![Career {
            id: "test_career".to_string(),
            name: "Test".to_string(),
            salary: 10000,
            pool: "basic".to_string(),
        }],
        houses: vec![House {
            id: "test_house".to_string(),
            name: "Test House".to_string(),
            price: 50000,
            sell_price: 70000,
        }],
    }
}

fn map_of(tiles: Vec<TileData>) -> MapData {
    let mut map = sample_map();
    map.tiles = tiles;
    map
}

fn two_players() -> Vec<(String, String)> {
    vec![("p1".to_string(), "Alice".to_string()), ("p2".to_string(), "Bob".to_string())]
}

fn three_players() -> Vec<(String, String)> {
    vec![
        ("p1".to_string(), "Alice".to_string()),
        ("p2".to_string(), "Bob".to_string()),
        ("p3".to_string(), "Charlie".to_string()),
    ]
}

fn on_board(state: &GameState) -> bool {
    state.players.iter().all(|p| state.board.tiles.iter().any(|t| t.id == p.position))
}

#[test]
fn test_init() {
    let engine = ClassicGameEngine::new();
    let map = sample_map();
    let players = vec![
        ("p1".to_string(), "Alice".to_string()),
        ("p2".to_string(), "Bob".to_string()),
    ];
    let state = engine.init(players, &map);

    assert_eq!(state.players.len(), 2);
    assert_eq!(state.players[0].money, 10000);
    assert_eq!(state.players[0].position, 0);
    assert_eq!(state.current_turn, 0);
    assert_eq!(state.phase, TurnPhase::WaitingForSpin);
}

#[test]
fn test_spin() {
    let engine = ClassicGameEngine::new();
    let map = sample_map();
    let players = vec![
        ("p1".to_string(), "Alice".to_string()),
        ("p2".to_string(), "Bob".to_string()),
    ];
    let state = engine.init(players, &map);
    let (new_state, result) = engine.spin(&state);

    assert!(result.value >= 1 && result.value <= 10);
    assert_eq!(result.player_id, "p1");
    assert_eq!(new_state.phase, TurnPhase::Moving);
}

#[test]
fn test_advance_and_retire() {
    let engine = ClassicGameEngine::new();
    let map = sample_map();
    let players = vec![
        ("p1".to_string(), "Alice".to_string()),
        ("p2".to_string(), "Bob".to_string()),
    ];
    let mut state = engine.init(players, &map);
    state.players[0].salary = 10000;

    // Advance 2 steps: Start(0) -> Payday(1) -> Retire(2)
    let (new_state, _events) = engine.advance(&state, 2);
    assert_eq!(new_state.players[0].position, 2);
    assert!(new_state.players[0].retired);
}

#[test]
fn test_end_turn_skips_retired() {
    let engine = ClassicGameEngine::new();
    let map = sample_map();
    let players = vec![
        ("p1".to_string(), "Alice".to_string()),
        ("p2".to_string(), "Bob".to_string()),
        ("p3".to_string(), "Charlie".to_string()),
    ];
    let mut state = engine.init(players, &map);
    state.players[1].retired = true; // Bob is retired

    // Turn 0 (Alice) -> end_turn -> should skip Bob (retired) -> Charlie (turn 2)
    let new_state = engine.end_turn(&state);
    assert_eq!(new_state.current_turn, 2);
}

#[test]
fn test_is_finished() {
    let engine = ClassicGameEngine::new();
    let map = sample_map();
    let players = vec![
        ("p1".to_string(), "Alice".to_string()),
        ("p2".to_string(), "Bob".to_string()),
    ];
    let mut state = engine.init(players, &map);

    assert!(!engine.is_finished(&state));

    state.players[0].retired = true;
    state.players[1].retired = true;
    assert!(engine.is_finished(&state));
}

#[test]
fn test_rankings() {
    let engine = ClassicGameEngine::new();
    let map = sample_map();
    let players = vec![
        ("p1".to_string(), "Alice".to_string()),
        ("p2".to_string(), "Bob".to_string()),
    ];
    let mut state = engine.init(players, &map);
    state.players[0].money = 50000;
    state.players[1].money = 100000;

    let rankings = engine.rankings(&state);
    assert_eq!(rankings[0].player_id, "p2"); // Bob has more money
    assert_eq!(rankings[0].rank, 1);
    assert_eq!(rankings[1].player_id, "p1");
    assert_eq!(rankings[1].rank, 2);
}

#[test]
fn init_copies_the_asset_and_starts_from_the_fixed_seed() {
    let engine = ClassicGameEngine::new();
    let state = engine.init(three_players(), &sample_map());
    assert_eq!(INITIAL_SEED, 42);
    assert_eq!(state.rng_seed, 42);
    assert_eq!(state.loan_unit, 20000);
    assert_eq!(state.loan_interest_rate, InterestRate { basis_points: 12500 });
    assert_eq!(state.board.tiles.len(), 3);
    assert_eq!(state.careers.len(), 1);
    assert_eq!(state.houses_for_sale[0].id, "test_house");
    for (i, id) in ["p1", "p2", "p3"].iter().enumerate() {
        assert_eq!(state.players[i].id, *id);
        assert_eq!(state.players[i].money, 10000);
        assert_eq!(state.players[i].salary, 0);
        assert!(!state.players[i].retired);
        assert!(state.players[i].houses.is_empty());
    }
    assert_eq!(state.players[2].name, "Charlie");
}

#[test]
fn init_places_players_on_the_first_tile_whatever_its_id() {
    let engine = ClassicGameEngine::new();
    let map = map_of(vec![tile(7, TileType::Start, vec![9]), tile(9, TileType::Retire, vec![])]);
    let state = engine.init(two_players(), &map);
    assert_eq!(state.players[0].position, 7);
    assert_eq!(state.players[1].position, 7);
    assert!(on_board(&state));
}

#[test]
fn init_on_a_map_without_tiles_places_players_on_tile_zero() {
    let engine = ClassicGameEngine::new();
    let state = engine.init(two_players(), &map_of(vec![]));
    assert_eq!(state.players[0].position, 0);
    assert!(!on_board(&state));
}

#[test]
fn xorshift_steps_from_the_initial_seed() {
    assert_eq!(xorshift64_step(42), 45454805674);
    assert_eq!(xorshift64_step(45454805674), 11532217803599905471);
    assert_eq!(xorshift64_step(0), 0);
}

#[test]
fn spin_reads_the_seed_and_advances_it_once() {
    let engine = ClassicGameEngine::new();
    let state = engine.init(two_players(), &sample_map());
    let (after, result) = engine.spin(&state);
    assert_eq!(result.value, 5);
    assert_eq!(after.rng_seed, 45454805674);
    assert_eq!(state.rng_seed, 42);
    // The same snapshot gives the same value again.
    let (again, same) = engine.spin(&state);
    assert_eq!(same.value, 5);
    assert_eq!(again.rng_seed, after.rng_seed);
    // The next spin reads the new seed.
    let (third, next) = engine.spin(&after);
    assert_eq!(next.value, 2);
    assert_eq!(third.rng_seed, 11532217803599905471);
    assert_eq!(after.players[0].money, state.players[0].money);
    assert_eq!(after.current_turn, 0);
}

#[test]
fn standard_roulette_does_not_need_a_turn() {
    let engine = ClassicGameEngine::new();
    let mut state = engine.init(two_players(), &sample_map());
    state.rng_seed = 45454805674;
    assert_eq!(StandardRoulette.spin(&state), 2);
}

#[test]
fn advance_pays_a_pay_day_that_is_passed() {
    let engine = ClassicGameEngine::new();
    let mut state = engine.init(two_players(), &sample_map());
    state.players[0].salary = 10000;
    state.phase = TurnPhase::Moving;
    let (after, events) = engine.advance(&state, 2);
    assert_eq!(after.players[0].money, 20000);
    assert_eq!(after.players[1].money, 10000);
    assert_eq!(events.len(), 2);
    match &events[0] {
        GameEvent::MoneyChanged { player_id, amount, reason } => {
            assert_eq!(player_id, "p1");
            assert_eq!(*amount, 10000);
            assert_eq!(reason, "給料日(通過)");
        }
        other => panic!("unexpected event {:?}", other),
    }
    assert!(matches!(&events[1], GameEvent::PlayerRetired { player_id } if player_id == "p1"));
    assert_eq!(after.phase, TurnPhase::TurnEnd);
}

#[test]
fn advance_pays_a_pay_day_that_is_landed_on_once() {
    let engine = ClassicGameEngine::new();
    let mut state = engine.init(two_players(), &sample_map());
    state.players[0].salary = 3000;
    state.phase = TurnPhase::Moving;
    let (after, events) = engine.advance(&state, 1);
    assert_eq!(after.players[0].position, 1);
    assert_eq!(after.players[0].money, 13000);
    assert_eq!(events.len(), 1);
    match &events[0] {
        GameEvent::MoneyChanged { player_id, amount, reason } => {
            assert_eq!(player_id, "p1");
            assert_eq!(*amount, 3000);
            assert_eq!(reason, "給料日");
        }
        other => panic!("unexpected event {:?}", other),
    }
    assert_eq!(after.phase, TurnPhase::TurnEnd);
}

#[test]
fn advance_stops_on_a_tile_without_successor() {
    let engine = ClassicGameEngine::new();
    let mut state = engine.init(two_players(), &sample_map());
    state.phase = TurnPhase::Moving;
    let (after, _) = engine.advance(&state, 10);
    assert_eq!(after.players[0].position, 2);
    assert!(after.players[0].retired);
    assert!(on_board(&after));
}

#[test]
fn advance_by_zero_resolves_the_tile_under_the_player() {
    let engine = ClassicGameEngine::new();
    let mut state = engine.init(two_players(), &sample_map());
    state.players[0].position = 2;
    state.phase = TurnPhase::Moving;
    let (after, events) = engine.advance(&state, 0);
    assert!(after.players[0].retired);
    assert_eq!(events.len(), 1);
}

#[test]
fn advance_takes_the_first_way_through_a_branch() {
    let engine = ClassicGameEngine::new();
    let map = map_of(vec![
        tile(0, TileType::Start, vec![1]),
        tile(1, TileType::Branch, vec![2, 3]),
        tile(2, TileType::Action, vec![4]),
        tile(3, TileType::Action, vec![4]),
        tile(4, TileType::Retire, vec![]),
    ]);
    let mut state = engine.init(two_players(), &map);
    state.phase = TurnPhase::Moving;
    let (after, events) = engine.advance(&state, 2);
    assert_eq!(after.players[0].position, 2);
    assert!(events.is_empty());
    assert_eq!(after.phase, TurnPhase::TurnEnd);
}

#[test]
fn advance_from_a_tile_that_is_not_on_the_board_changes_only_the_phase() {
    let engine = ClassicGameEngine::new();
    let mut state = engine.init(two_players(), &sample_map());
    state.players[0].position = 99;
    state.phase = TurnPhase::Moving;
    let (after, events) = engine.advance(&state, 3);
    assert_eq!(after.players[0].position, 99);
    assert!(events.is_empty());
    assert_eq!(after.phase, TurnPhase::TurnEnd);
}

#[test]
fn advance_keeps_a_phase_that_is_not_moving() {
    let engine = ClassicGameEngine::new();
    let state = engine.init(two_players(), &sample_map());
    let (after, _) = engine.advance(&state, 1);
    assert_eq!(after.phase, TurnPhase::WaitingForSpin);
}

#[test]
fn landing_on_a_branch_asks_for_the_way() {
    let engine = ClassicGameEngine::new();
    let mut branch = tile(1, TileType::Branch, vec![2, 3, 4]);
    branch.labels = Some(vec!["College".to_string(), "Work".to_string()]);
    let map = map_of(vec![
        tile(0, TileType::Start, vec![1]),
        branch,
        tile(2, TileType::Action, vec![4]),
        tile(3, TileType::Action, vec![4]),
        tile(4, TileType::Retire, vec![]),
    ]);
    let mut state = engine.init(two_players(), &map);
    state.phase = TurnPhase::Moving;
    let (after, events) = engine.advance(&state, 1);
    assert_eq!(after.phase, TurnPhase::ChoosingPath);
    assert_eq!(events.len(), 1);
    match &events[0] {
        GameEvent::ChoiceRequired { choices } => {
            assert_eq!(choices.len(), 3);
            assert_eq!(choices[0].id, "0");
            assert_eq!(choices[0].label, "College");
            assert_eq!(choices[1].id, "1");
            assert_eq!(choices[1].label, "Work");
            assert_eq!(choices[2].id, "2");
            assert_eq!(choices[2].label, "道 3");
        }
        other => panic!("unexpected event {:?}", other),
    }
}

#[test]
fn choose_path_moves_to_the_chosen_successor() {
    let engine = ClassicGameEngine::new();
    let map = map_of(vec![
        tile(0, TileType::Branch, vec![5, 6]),
        tile(5, TileType::Action, vec![]),
        tile(6, TileType::Action, vec![]),
    ]);
    let mut state = engine.init(two_players(), &map);
    state.phase = TurnPhase::ChoosingPath;
    let after = engine.choose_path(&state, 1);
    assert_eq!(after.players[0].position, 6);
    assert_eq!(after.players[1].position, 0);
    assert_eq!(after.phase, TurnPhase::TurnEnd);
    assert!(on_board(&after));
}

#[test]
fn choose_path_with_an_index_out_of_range_is_a_pass() {
    let engine = ClassicGameEngine::new();
    let map = map_of(vec![
        tile(0, TileType::Branch, vec![5, 6]),
        tile(5, TileType::Action, vec![]),
        tile(6, TileType::Action, vec![]),
    ]);
    let mut state = engine.init(two_players(), &map);
    state.phase = TurnPhase::ChoosingPath;
    let after = engine.choose_path(&state, 2);
    assert_eq!(after.players[0].position, 0);
    assert_eq!(after.phase, TurnPhase::TurnEnd);
}

#[test]
fn buying_a_house_debits_the_price_and_takes_the_house_off_sale() {
    let engine = ClassicGameEngine::new();
    let mut state = engine.init(two_players(), &sample_map());
    state.players[0].money = 60000;
    state.phase = TurnPhase::ChoosingAction;
    let action = PlayerAction::BuyHouse { house_id: "test_house".to_string() };
    let (after, events) = engine.resolve_action(&state, action);
    assert_eq!(after.players[0].money, 10000);
    assert_eq!(after.players[0].houses.len(), 1);
    assert_eq!(after.players[0].houses[0].sell_price, 70000);
    assert!(after.houses_for_sale.is_empty());
    assert_eq!(state.houses_for_sale.len(), 1);
    assert_eq!(after.phase, TurnPhase::TurnEnd);
    assert_eq!(events.len(), 2);
    match &events[0] {
        GameEvent::MoneyChanged { player_id, amount, reason } => {
            assert_eq!(player_id, "p1");
            assert_eq!(*amount, -50000);
            assert_eq!(reason, "Test House購入");
        }
        other => panic!("unexpected event {:?}", other),
    }
    assert!(matches!(&events[1], GameEvent::HousePurchased { player_id, house }
        if player_id == "p1" && house.id == "test_house"));
}

#[test]
fn a_house_that_costs_too_much_or_is_not_on_sale_is_a_pass() {
    let engine = ClassicGameEngine::new();
    let mut state = engine.init(two_players(), &sample_map());
    state.players[0].money = 49999;
    state.phase = TurnPhase::ChoosingAction;
    let dear = PlayerAction::BuyHouse { house_id: "test_house".to_string() };
    let (after, events) = engine.resolve_action(&state, dear);
    assert_eq!(after.players[0].money, 49999);
    assert!(after.players[0].houses.is_empty());
    assert!(events.is_empty());
    assert_eq!(after.phase, TurnPhase::TurnEnd);

    state.players[0].money = 1000000;
    let unknown = PlayerAction::BuyHouse { house_id: "castle".to_string() };
    let (after, events) = engine.resolve_action(&state, unknown);
    assert_eq!(after.players[0].money, 1000000);
    assert!(events.is_empty());
    assert_eq!(after.phase, TurnPhase::TurnEnd);
}

#[test]
fn a_house_at_exactly_the_balance_is_bought() {
    let engine = ClassicGameEngine::new();
    let mut state = engine.init(two_players(), &sample_map());
    state.players[0].money = 50000;
    let action = PlayerAction::BuyHouse { house_id: "test_house".to_string() };
    let (after, events) = engine.resolve_action(&state, action);
    assert_eq!(after.players[0].money, 0);
    assert_eq!(events.len(), 2);
}

#[test]
fn insurance_is_taken_out_without_charge() {
    let engine = ClassicGameEngine::new();
    let state = engine.init(two_players(), &sample_map());
    let life = PlayerAction::BuyInsurance { insurance_type: InsuranceType::Life };
    let (after, events) = engine.resolve_action(&state, life);
    assert!(after.players[0].life_insurance);
    assert!(!after.players[0].auto_insurance);
    assert_eq!(after.players[0].money, 10000);
    assert!(matches!(&events[0], GameEvent::InsurancePurchased { player_id, insurance_type }
        if player_id == "p1" && *insurance_type == InsuranceType::Life));
    let auto = PlayerAction::BuyInsurance { insurance_type: InsuranceType::Auto };
    let (after, events) = engine.resolve_action(&after, auto);
    assert!(after.players[0].life_insurance);
    assert!(after.players[0].auto_insurance);
    assert_eq!(events.len(), 1);
    assert_eq!(after.phase, TurnPhase::TurnEnd);
}

#[test]
fn skipping_ends_the_turn_and_nothing_else() {
    let engine = ClassicGameEngine::new();
    let mut state = engine.init(two_players(), &sample_map());
    state.phase = TurnPhase::ChoosingAction;
    let (after, events) = engine.resolve_action(&state, PlayerAction::SkipAction);
    assert!(events.is_empty());
    assert_eq!(after.players[0].money, 10000);
    assert_eq!(after.rng_seed, 42);
    assert_eq!(after.phase, TurnPhase::TurnEnd);
}

#[test]
fn a_lawsuit_moves_a_hundred_thousand_to_the_plaintiff() {
    let engine = ClassicGameEngine::new();
    let state = engine.init(three_players(), &sample_map());
    let action = PlayerAction::SelectLawsuitTarget { target_id: "p3".to_string() };
    let (after, events) = engine.resolve_action(&state, action);
    assert_eq!(after.players[0].money, 110000);
    assert_eq!(after.players[1].money, 10000);
    assert_eq!(after.players[2].money, -90000);
    assert_eq!(after.phase, TurnPhase::TurnEnd);
    assert_eq!(events.len(), 2);
    match &events[0] {
        GameEvent::MoneyChanged { player_id, amount, reason } => {
            assert_eq!(player_id, "p3");
            assert_eq!(*amount, -100000);
            assert_eq!(reason, "訴訟(支払い)");
        }
        other => panic!("unexpected event {:?}", other),
    }
    match &events[1] {
        GameEvent::MoneyChanged { player_id, amount, reason } => {
            assert_eq!(player_id, "p1");
            assert_eq!(*amount, 100000);
            assert_eq!(reason, "訴訟(受取)");
        }
        other => panic!("unexpected event {:?}", other),
    }
}

#[test]
fn a_lawsuit_against_nobody_is_a_pass() {
    let engine = ClassicGameEngine::new();
    let state = engine.init(three_players(), &sample_map());
    let action = PlayerAction::SelectLawsuitTarget { target_id: "nobody".to_string() };
    let (after, events) = engine.resolve_action(&state, action);
    assert!(events.is_empty());
    assert_eq!(after.players[0].money, 10000);
    assert_eq!(after.players[2].money, 10000);
    assert_eq!(after.phase, TurnPhase::TurnEnd);
}

#[test]
fn the_resolver_resolves_a_lawsuit_and_a_pay_day_by_itself() {
    let engine = ClassicGameEngine::new();
    let mut state = engine.init(three_players(), &sample_map());
    state.current_turn = 1;
    state.players[2].salary = 7;
    let (after, events) = ClassicEventResolver.resolve_lawsuit(&state, &"p1".to_string());
    assert_eq!(after.players[0].money, -90000);
    assert_eq!(after.players[1].money, 110000);
    assert_eq!(events.len(), 2);
    let paid = ClassicEventResolver.resolve_payday(&state, 2);
    assert_eq!(paid.players[2].money, 10007);
    assert_eq!(paid.players[1].money, 10000);
}

#[test]
fn repaying_costs_the_loan_unit_at_the_rate() {
    let engine = ClassicGameEngine::new();
    let mut state = engine.init(two_players(), &sample_map());
    state.players[0].debt = 40000;
    state.players[0].money = 30000;
    let (after, events) = engine.resolve_action(&state, PlayerAction::RepayDebt);
    assert_eq!(after.players[0].money, 5000);
    assert_eq!(after.players[0].debt, 20000);
    assert_eq!(after.phase, TurnPhase::TurnEnd);
    match &events[0] {
        GameEvent::MoneyChanged { player_id, amount, reason } => {
            assert_eq!(player_id, "p1");
            assert_eq!(*amount, -25000);
            assert_eq!(reason, "借金返済");
        }
        other => panic!("unexpected event {:?}", other),
    }
}

#[test]
fn repaying_without_debt_or_funds_is_a_pass() {
    let engine = ClassicGameEngine::new();
    let mut state = engine.init(two_players(), &sample_map());
    state.players[0].debt = 19999;
    state.players[0].money = 100000;
    let (after, events) = engine.resolve_action(&state, PlayerAction::RepayDebt);
    assert_eq!(after.players[0].money, 100000);
    assert_eq!(after.players[0].debt, 19999);
    assert!(events.is_empty());

    state.players[0].debt = 20000;
    state.players[0].money = 24999;
    let (after, events) = engine.resolve_action(&state, PlayerAction::RepayDebt);
    assert_eq!(after.players[0].money, 24999);
    assert_eq!(after.players[0].debt, 20000);
    assert!(events.is_empty());
    assert_eq!(after.phase, TurnPhase::TurnEnd);
}

#[test]
fn buying_stock_costs_ten_thousand_and_one_draw() {
    let engine = ClassicGameEngine::new();
    let state = engine.init(two_players(), &sample_map());
    let (after, events) = engine.resolve_action(&state, PlayerAction::BuyStock);
    assert_eq!(after.players[0].money, 0);
    assert_eq!(after.players[0].stocks.len(), 1);
    assert_eq!(after.players[0].stocks[0].id, "stock_74");
    assert_eq!(after.players[0].stocks[0].name, "株券");
    assert_eq!(after.rng_seed, 45454805674);
    assert!(matches!(&events[0], GameEvent::StockPurchased { player_id } if player_id == "p1"));
    // Nothing is left for a second unit.
    let (again, events) = engine.resolve_action(&after, PlayerAction::BuyStock);
    assert_eq!(again.players[0].stocks.len(), 1);
    assert_eq!(again.rng_seed, 45454805674);
    assert!(events.is_empty());
    assert_eq!(again.phase, TurnPhase::TurnEnd);
}

#[test]
fn end_turn_goes_round_the_table() {
    let engine = ClassicGameEngine::new();
    let mut state = engine.init(three_players(), &sample_map());
    state.current_turn = 2;
    state.phase = TurnPhase::TurnEnd;
    let after = engine.end_turn(&state);
    assert_eq!(after.current_turn, 0);
    assert_eq!(after.phase, TurnPhase::WaitingForSpin);

    state.players[0].retired = true;
    let after = engine.end_turn(&state);
    assert_eq!(after.current_turn, 1);
}

#[test]
fn end_turn_comes_back_to_the_only_player_left() {
    let engine = ClassicGameEngine::new();
    let mut state = engine.init(three_players(), &sample_map());
    state.players[1].retired = true;
    state.players[2].retired = true;
    state.phase = TurnPhase::TurnEnd;
    let after = engine.end_turn(&state);
    assert_eq!(after.current_turn, 0);
    assert!(!after.players[after.current_turn].retired);
    assert_eq!(after.phase, TurnPhase::WaitingForSpin);
}

#[test]
fn end_turn_with_everyone_retired_changes_nothing() {
    let engine = ClassicGameEngine::new();
    let mut state = engine.init(three_players(), &sample_map());
    for p in state.players.iter_mut() {
        p.retired = true;
    }
    state.current_turn = 1;
    state.phase = TurnPhase::TurnEnd;
    let after = engine.end_turn(&state);
    assert_eq!(after.current_turn, 1);
    assert_eq!(after.phase, TurnPhase::TurnEnd);
}

#[test]
fn a_game_is_not_finished_while_one_player_plays() {
    let engine = ClassicGameEngine::new();
    let mut state = engine.init(two_players(), &sample_map());
    state.players[0].retired = true;
    assert!(!engine.is_finished(&state));
    state.players[0].retired = false;
    state.players[1].retired = true;
    assert!(!engine.is_finished(&state));
}

#[test]
fn rankings_break_ties_in_turn_order() {
    let engine = ClassicGameEngine::new();
    let mut state = engine.init(three_players(), &sample_map());
    state.players[0].money = 500;
    state.players[1].money = 900;
    state.players[2].money = 900;
    let rankings = engine.rankings(&state);
    let ids: Vec<&str> = rankings.iter().map(|r| r.player_id.as_str()).collect();
    assert_eq!(ids, vec!["p2", "p3", "p1"]);
    let ranks: Vec<u32> = rankings.iter().map(|r| r.rank).collect();
    assert_eq!(ranks, vec![1, 2, 3]);
    let totals: Vec<i64> = rankings.iter().map(|r| r.total_assets).collect();
    assert_eq!(totals, vec![900, 900, 500]);
    assert_eq!(rankings[2].player_name, "Alice");
}

#[test]
fn rankings_count_houses_notes_and_debt() {
    let engine = ClassicGameEngine::new();
    let mut state = engine.init(two_players(), &sample_map());
    state.players[0].money = 1000;
    state.players[0].houses.push(sample_map().houses[0].clone());
    state.players[0].promissory_notes.push(PromissoryNote { id: "n".to_string(), amount: 500 });
    state.players[0].debt = 20000;
    state.players[1].money = 46499;
    let rankings = engine.rankings(&state);
    // 1000 + 70000 + 500 - 25000
    assert_eq!(rankings[0].player_id, "p1");
    assert_eq!(rankings[0].total_assets, 46500);
    assert_eq!(rankings[1].total_assets, 46499);
}

#[test]
fn rankings_of_nobody_are_empty() {
    let engine = ClassicGameEngine::new();
    let state = engine.init(vec![], &sample_map());
    assert!(engine.rankings(&state).is_empty());
    assert!(engine.is_finished(&state));
}

#[test]
fn total_assets_follow_the_formula() {
    let mut p = PlayerState::new("p".to_string(), "P".to_string(), -300);
    assert_eq!(p.total_assets(InterestRate { basis_points: 12500 }), -300);
    p.debt = 3;
    // 3 * 1.25 = 3.75, rounded down.
    assert_eq!(p.total_assets(InterestRate { basis_points: 12500 }), -303);
    p.promissory_notes.push(PromissoryNote { id: "a".to_string(), amount: -50 });
    p.promissory_notes.push(PromissoryNote { id: "b".to_string(), amount: 400 });
    assert_eq!(p.total_assets(InterestRate { basis_points: 0 }), 50);
    p.money = i64::MAX;
    assert_eq!(p.total_assets(InterestRate { basis_points: 0 }), i64::MAX);
    p.money = i64::MIN;
    p.debt = u64::MAX;
    assert_eq!(p.total_assets(InterestRate { basis_points: u32::MAX }), i64::MIN);
}

#[test]
fn the_interest_rate_rounds_down_and_stops_at_the_largest_balance() {
    let rate = InterestRate { basis_points: 12500 };
    assert_eq!(rate.apply(20000), 25000);
    assert_eq!(rate.apply(0), 0);
    assert_eq!(rate.apply(7), 8);
    assert_eq!(InterestRate { basis_points: 10000 }.apply(123), 123);
    assert_eq!(InterestRate { basis_points: 20000 }.apply(u64::MAX), i64::MAX);
}

#[test]
fn with_components_plays_by_the_given_policies() {
    let engine: ClassicGameEngine =
        ClassicGameEngine::with_components(Box::new(ClassicEventResolver), Box::new(StandardRoulette));
    let state = engine.init(two_players(), &sample_map());
    let (_, result) = engine.spin(&state);
    assert_eq!(result.value, 5);
    let by_default = ClassicGameEngine::default();
    let (_, result) = by_default.spin(&state);
    assert_eq!(result.value, 5);
}

#[test]
fn players_stay_on_the_board_through_a_game() {
    let engine = ClassicGameEngine::new();
    let map = map_of(vec![
        tile(0, TileType::Start, vec![1]),
        tile(1, TileType::Payday, vec![2]),
        tile(2, TileType::Branch, vec![3, 4]),
        tile(3, TileType::Tax, vec![5]),
        tile(4, TileType::Stock, vec![5]),
        tile(5, TileType::Marry, vec![6]),
        tile(6, TileType::Retire, vec![]),
    ]);
    let mut state = engine.init(three_players(), &map);
    let mut turns = 0;
    while !engine.is_finished(&state) && turns < 100 {
        let (spun, result) = engine.spin(&state);
        let (moved, _) = engine.advance(&spun, result.value);
        state = moved;
        assert!(on_board(&state));
        if state.phase == TurnPhase::ChoosingPath {
            state = engine.choose_path(&state, turns % 3);
            assert!(on_board(&state));
        }
        if state.phase == TurnPhase::ChoosingAction {
            state = engine.resolve_action(&state, PlayerAction::SkipAction).0;
        }
        assert_eq!(state.phase, TurnPhase::TurnEnd);
        if !engine.is_finished(&state) {
            state = engine.end_turn(&state);
            assert!(!state.players[state.current_turn].retired);
        }
        assert!(on_board(&state));
        assert!(state.current_turn < state.players.len());
        turns += 1;
    }
    assert!(engine.is_finished(&state));
}

#[test]
fn board_lookup_finds_the_first_tile_with_an_id() {
    let engine = ClassicGameEngine::new();
    let mut second = tile(1, TileType::Tax, vec![]);
    second.event = Some(TileEvent::Money { amount: 1, text: "x".to_string() });
    let map = map_of(vec![tile(4, TileType::Start, vec![1]), tile(1, TileType::Payday, vec![]), second]);
    let state = engine.init(two_players(), &map);
    assert_eq!(state.board.tile_index(1), Some(1));
    assert_eq!(state.board.tile_index(4), Some(0));
    assert_eq!(state.board.tile_index(0), None);
    let found: &Tile = state.board.tile(1).unwrap();
    assert_eq!(found.tile_type, TileType::Payday);
    assert!(state.board.tile(2).is_none());
    assert_eq!(state.board.tiles[0].position, at(4.0, 0.0));
}

#[test]
fn snapshot_accessors() {
    let engine = ClassicGameEngine::new();
    let mut state = engine.init(three_players(), &sample_map());
    state.current_turn = 1;
    assert_eq!(state.current_player().id, "p2");
    state.current_player_mut().money = 77;
    assert_eq!(state.players[1].money, 77);
    assert_eq!(state.player_by_id("p3").unwrap().name, "Charlie");
    assert!(state.player_by_id("p4").is_none());
    assert_eq!(state.player_index("p1"), Some(0));
    assert_eq!(state.active_player_count(), 3);
    state.players[0].retired = true;
    assert_eq!(state.active_player_count(), 2);
    assert_eq!(state.next_random(), 45454805674);
    assert_eq!(state.rng_seed, 45454805674);
    assert_eq!(state.next_random(), 11532217803599905471);
}

#[test]
fn a_copy_of_a_snapshot_is_its_own() {
    let engine = ClassicGameEngine::new();
    let state = engine.init(two_players(), &sample_map());
    let mut copy = state.clone();
    copy.players[0].money = 1;
    copy.players[0].name.push('!');
    assert_eq!(state.players[0].money, 10000);
    assert_eq!(state.players[0].name, "Alice");
    assert_eq!(copy.players[1].id, "p2");
    assert_eq!(copy.board.tiles[1].next, vec![2]);
}

#[test]
fn a_rate_of_one_and_a_quarter_is_what_floating_point_gives() {
    let rate = InterestRate { basis_points: 12500 };
    let mut debts: Vec<u64> = (0..5000).collect();
    for k in 0..2000u64 {
        debts.push(20000 * k);
        debts.push((1u64 << 40) + k * 3);
        debts.push((1u64 << 50) - k);
    }
    // Up to here floating point holds the products exactly.
    for debt in debts {
        assert_eq!(rate.apply(debt), (debt as f64 * 1.25) as i64, "debt {}", debt);
    }
}

#[test]
fn rankings_agree_with_a_stable_sort() {
    let engine = ClassicGameEngine::new();
    let names: Vec<(String, String)> =
        (0..9).map(|i| (format!("id{}", i), format!("Name {}", i))).collect();
    let mut state = engine.init(names, &sample_map());
    let mut seed: u64 = 7;
    for round in 0..50 {
        for p in state.players.iter_mut() {
            seed = xorshift64_step(seed);
            // Few distinct values, so that ties are common.
            p.money = (seed % 5) as i64 * 1000 - 2000;
            p.debt = if round % 2 == 0 { 0 } else { (seed % 3) * 800 };
        }
        let mut expected: Vec<(i64, usize)> = state
            .players
            .iter()
            .enumerate()
            .map(|(i, p)| (p.money - (p.debt as i64 * 5 / 4), i))
            .collect();
        expected.sort_by(|a, b| b.0.cmp(&a.0));
        let rankings = engine.rankings(&state);
        assert_eq!(rankings.len(), 9);
        for (place, (entry, (total, seat))) in rankings.iter().zip(expected).enumerate() {
            assert_eq!(entry.player_id, format!("id{}", seat));
            assert_eq!(entry.player_name, format!("Name {}", seat));
            assert_eq!(entry.total_assets, total);
            assert_eq!(entry.rank as usize, place + 1);
        }
    }
}

fn house(id: &str, price: i64) -> House {
    House { id: id.to_string(), name: id.to_uppercase(), price, sell_price: price / 2 }
}

#[test]
fn a_house_that_was_bought_is_not_offered_again() {
    let engine = ClassicGameEngine::new();
    let mut map = map_of(vec![tile(0, TileType::House, vec![0])]);
    map.houses = vec![house("hut", 1000), house("villa", 3000), house("flat", 2000)];
    let mut state = engine.init(two_players(), &map);
    state.phase = TurnPhase::ChoosingAction;
    let action = PlayerAction::BuyHouse { house_id: "villa".to_string() };
    let (after, events) = engine.resolve_action(&state, action);
    assert_eq!(events.len(), 2);
    assert_eq!(after.players[0].money, 7000);
    assert_eq!(after.players[0].houses[0].id, "villa");
    let on_sale: Vec<&str> = after.houses_for_sale.iter().map(|h| h.id.as_str()).collect();
    assert_eq!(on_sale, vec!["hut", "flat"]);
    // The next player who stops on a house tile is offered what is left.
    let mut next = engine.end_turn(&after);
    next.phase = TurnPhase::Moving;
    let (asked, events) = engine.advance(&next, 1);
    assert_eq!(asked.phase, TurnPhase::ChoosingAction);
    match &events[0] {
        GameEvent::ChoiceRequired { choices } => {
            let ids: Vec<&str> = choices.iter().map(|c| c.id.as_str()).collect();
            assert_eq!(ids, vec!["hut", "flat", "skip"]);
        }
        other => panic!("unexpected event {:?}", other),
    }
    // Nobody can buy it a second time.
    let again = PlayerAction::BuyHouse { house_id: "villa".to_string() };
    let (same, events) = engine.resolve_action(&asked, again);
    assert!(events.is_empty());
    assert_eq!(same.players[1].money, 10000);
    assert!(same.players[1].houses.is_empty());
    assert_eq!(same.houses_for_sale.len(), 2);
    assert_eq!(same.phase, TurnPhase::TurnEnd);
}

#[test]
fn of_two_houses_with_one_id_the_first_is_sold() {
    let engine = ClassicGameEngine::new();
    let mut map = sample_map();
    map.houses = vec![house("twin", 5000), house("hut", 100), house("twin", 7000)];
    let state = engine.init(two_players(), &map);
    let action = PlayerAction::BuyHouse { house_id: "twin".to_string() };
    let (after, _) = engine.resolve_action(&state, action);
    assert_eq!(after.players[0].money, 5000);
    let left: Vec<(&str, i64)> =
        after.houses_for_sale.iter().map(|h| (h.id.as_str(), h.price)).collect();
    assert_eq!(left, vec![("hut", 100), ("twin", 7000)]);
}

#[test]
fn an_insurance_that_is_held_already_is_a_pass() {
    let engine = ClassicGameEngine::new();
    let mut state = engine.init(two_players(), &sample_map());
    state.players[0].life_insurance = true;
    state.phase = TurnPhase::ChoosingAction;
    let life = PlayerAction::BuyInsurance { insurance_type: InsuranceType::Life };
    let (after, events) = engine.resolve_action(&state, life);
    assert!(events.is_empty());
    assert!(after.players[0].life_insurance);
    assert!(!after.players[0].auto_insurance);
    assert_eq!(after.players[0].money, 10000);
    assert_eq!(after.phase, TurnPhase::TurnEnd);

    state.players[0].auto_insurance = true;
    let auto = PlayerAction::BuyInsurance { insurance_type: InsuranceType::Auto };
    let (after, events) = engine.resolve_action(&state, auto);
    assert!(events.is_empty());
    assert!(after.players[0].auto_insurance);
    assert_eq!(after.phase, TurnPhase::TurnEnd);
}

#[test]
fn a_pay_day_at_the_end_of_the_path_pays_once() {
    let engine = ClassicGameEngine::new();
    let map = map_of(vec![tile(0, TileType::Start, vec![1]), tile(1, TileType::Payday, vec![])]);
    let mut state = engine.init(two_players(), &map);
    state.players[0].salary = 4000;
    state.phase = TurnPhase::Moving;
    // One hop reaches the pay day; four steps are left over.
    let (after, events) = engine.advance(&state, 5);
    assert_eq!(after.players[0].position, 1);
    assert_eq!(after.players[0].money, 14000);
    assert_eq!(events.len(), 1);
    match &events[0] {
        GameEvent::MoneyChanged { player_id, amount, reason } => {
            assert_eq!(player_id, "p1");
            assert_eq!(*amount, 4000);
            assert_eq!(reason, "給料日");
        }
        other => panic!("unexpected event {:?}", other),
    }
    assert_eq!(after.phase, TurnPhase::TurnEnd);
}

#[test]
fn every_pay_day_on_the_way_pays_and_the_last_stop_pays_as_a_stop() {
    let engine = ClassicGameEngine::new();
    let map = map_of(vec![
        tile(0, TileType::Start, vec![1]),
        tile(1, TileType::Payday, vec![2]),
        tile(2, TileType::Payday, vec![3]),
        tile(3, TileType::Branch, vec![4, 0]),
        tile(4, TileType::Payday, vec![]),
    ]);
    let mut state = engine.init(two_players(), &map);
    state.players[0].salary = 100;
    state.phase = TurnPhase::Moving;
    // Two pay days are passed, the branch is passed without a question, and the third
    // pay day ends the walk with two steps left over.
    let (after, events) = engine.advance(&state, 6);
    assert_eq!(after.players[0].position, 4);
    assert_eq!(after.players[0].money, 10300);
    let reasons: Vec<&str> = events
        .iter()
        .map(|e| match e {
            GameEvent::MoneyChanged { reason, amount, .. } if *amount == 100 => reason.as_str(),
            other => panic!("unexpected event {:?}", other),
        })
        .collect();
    assert_eq!(reasons, vec!["給料日(通過)", "給料日(通過)", "給料日"]);
    assert_eq!(after.phase, TurnPhase::TurnEnd);
    // With exactly as many steps as hops the last stop is the second pay day.
    let (after, events) = engine.advance(&state, 2);
    assert_eq!(after.players[0].position, 2);
    assert_eq!(after.players[0].money, 10200);
    assert_eq!(events.len(), 2);
}
