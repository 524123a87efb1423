use nine_life::game::board::Tile;
use nine_life::game::engine::ClassicGameEngine;
use nine_life::game::events::ClassicEventResolver;
use nine_life::game::map::{
    Career, House, InterestRate, MapData, Position, TileData, TileEvent, TileType,
};
use nine_life::game::state::{GameChoice, GameEvent, GameState, TurnPhase};
use nine_life::game::traits::{EventResolver, GameEngine};

fn stop(tile_type: TileType) -> Tile {
    Tile {
        id: 1,
        tile_type,
        position: Position { x_bits: 0, y_bits: 0 },
        next: vec![],
        event: None,
        labels: None,
    }
}

fn career(id: &str, salary: u32, pool: &str) -> Career {
    Career { id: id.to_string(), name: id.to_uppercase(), salary, pool: pool.to_string() }
}

fn game(players: usize) -> GameState {
    let map = MapData {
        id: "m".to_string(),
        name: "M".to_string(),
        version: "1".to_string(),
        start_money: 20000,
        loan_unit: 20000,
        loan_interest_rate: InterestRate { basis_points: 12500 },
        tiles: vec![TileData {
            id: 0,
            tile_type: TileType::Start,
            position: Position { x_bits: 0, y_bits: 0 },
            next: vec![1],
            event: None,
            labels: None,
        }],
        careers: vec![
            career("clerk", 20000, "basic"),
            career("doctor", 90000, "college"),
            career("cook", 30000, "basic"),
            career("pilot", 50000, "basic"),
        ],
        houses: vec![
            House { id: "hut".to_string(), name: "Hut".to_string(), price: 1000, sell_price: 500 },
            House {
                id: "villa".to_string(),
                name: "Villa".to_string(),
                price: 900000,
                sell_price: -20,
            },
        ],
    };
    let names: Vec<(String, String)> =
        (1..=players).map(|i| (format!("p{}", i), format!("Player {}", i))).collect();
    let mut state = ClassicGameEngine::new().init(names, &map);
    state.phase = TurnPhase::Moving;
    state
}

fn land(state: &GameState, tile: &Tile) -> (GameState, Vec<GameEvent>) {
    ClassicEventResolver.resolve_tile(state, tile)
}

fn money_event(event: &GameEvent) -> (&str, i64, &str) {
    match event {
        GameEvent::MoneyChanged { player_id, amount, reason } => {
            (player_id.as_str(), *amount, reason.as_str())
        }
        other => panic!("unexpected event {:?}", other),
    }
}

fn choices(event: &GameEvent) -> Vec<(&str, &str)> {
    match event {
        GameEvent::ChoiceRequired { choices } => {
            choices.iter().map(|c: &GameChoice| (c.id.as_str(), c.label.as_str())).collect()
        }
        other => panic!("unexpected event {:?}", other),
    }
}

#[test]
fn payday_credits_the_salary_of_the_mover() {
    let mut state = game(2);
    state.current_turn = 1;
    state.players[1].salary = 12345;
    let (after, events) = land(&state, &stop(TileType::Payday));
    assert_eq!(after.players[1].money, 32345);
    assert_eq!(after.players[0].money, 20000);
    assert_eq!(events.len(), 1);
    assert_eq!(money_event(&events[0]), ("p2", 12345, "給料日"));
    assert_eq!(after.phase, TurnPhase::Moving);
}

#[test]
fn action_applies_the_literal_amount_of_the_tile() {
    let state = game(2);
    let mut tile = stop(TileType::Action);
    tile.event = Some(TileEvent::Money { amount: -3500, text: "Car repair".to_string() });
    let (after, events) = land(&state, &tile);
    assert_eq!(after.players[0].money, 16500);
    assert_eq!(money_event(&events[0]), ("p1", -3500, "Car repair"));

    tile.event = Some(TileEvent::Money { amount: 800, text: "Lottery".to_string() });
    let (after, events) = land(&state, &tile);
    assert_eq!(after.players[0].money, 20800);
    assert_eq!(money_event(&events[0]), ("p1", 800, "Lottery"));
}

#[test]
fn action_without_an_amount_does_nothing() {
    let state = game(2);
    let (after, events) = land(&state, &stop(TileType::Action));
    assert_eq!(after.players[0].money, 20000);
    assert!(events.is_empty());
    let mut tile = stop(TileType::Action);
    tile.event = Some(TileEvent::DrawCareer { pool: "basic".to_string() });
    let (after, events) = land(&state, &tile);
    assert_eq!(after.players[0].money, 20000);
    assert!(events.is_empty());
}

#[test]
fn money_stops_at_the_ends_of_its_range() {
    let mut state = game(2);
    state.players[0].money = i64::MAX - 5;
    let mut tile = stop(TileType::Action);
    tile.event = Some(TileEvent::Money { amount: 100, text: "t".to_string() });
    let (after, _) = land(&state, &tile);
    assert_eq!(after.players[0].money, i64::MAX);
    state.players[0].money = i64::MIN + 5;
    tile.event = Some(TileEvent::Money { amount: -100, text: "t".to_string() });
    let (after, _) = land(&state, &tile);
    assert_eq!(after.players[0].money, i64::MIN);
}

#[test]
fn career_draws_from_the_basic_pool_by_default() {
    let state = game(2);
    let (after, events) = land(&state, &stop(TileType::Career));
    // Three basic careers; the draw 45454805674 leaves 1 when divided by 3.
    assert_eq!(after.rng_seed, 45454805674);
    assert_eq!(after.players[0].salary, 30000);
    assert_eq!(after.players[0].career.as_ref().unwrap().id, "cook");
    match &events[0] {
        GameEvent::CareerAssigned { player_id, career } => {
            assert_eq!(player_id, "p1");
            assert_eq!(career.id, "cook");
            assert_eq!(career.name, "COOK");
        }
        other => panic!("unexpected event {:?}", other),
    }
    assert_eq!(after.players[1].salary, 0);
}

#[test]
fn career_draws_from_the_pool_of_the_tile() {
    let state = game(2);
    let mut tile = stop(TileType::Career);
    tile.event = Some(TileEvent::DrawCareer { pool: "college".to_string() });
    let (after, events) = land(&state, &tile);
    assert_eq!(after.players[0].career.as_ref().unwrap().id, "doctor");
    assert_eq!(after.players[0].salary, 90000);
    assert_eq!(after.rng_seed, 45454805674);
    assert_eq!(events.len(), 1);
}

#[test]
fn career_from_an_empty_pool_draws_nothing() {
    let state = game(2);
    let mut tile = stop(TileType::Career);
    tile.event = Some(TileEvent::DrawCareer { pool: "nobody".to_string() });
    let (after, events) = land(&state, &tile);
    assert!(after.players[0].career.is_none());
    assert_eq!(after.rng_seed, 42);
    assert!(events.is_empty());
}

#[test]
fn house_offers_each_house_on_sale_and_then_to_skip() {
    let state = game(2);
    let (after, events) = land(&state, &stop(TileType::House));
    assert_eq!(after.phase, TurnPhase::ChoosingAction);
    assert_eq!(events.len(), 1);
    assert_eq!(
        choices(&events[0]),
        vec![
            ("hut", "Hut ($1000 / 売却$500)"),
            ("villa", "Villa ($900000 / 売却$-20)"),
            ("skip", "購入しない"),
        ]
    );
    assert_eq!(after.players[0].money, 20000);
}

#[test]
fn house_with_nothing_on_sale_offers_only_to_skip() {
    let mut state = game(2);
    state.houses_for_sale.clear();
    let (after, events) = land(&state, &stop(TileType::House));
    assert_eq!(after.phase, TurnPhase::ChoosingAction);
    assert_eq!(choices(&events[0]), vec![("skip", "購入しない")]);
}

#[test]
fn marry_collects_a_gift_from_each_other_player() {
    let state = game(3);
    let (after, events) = land(&state, &stop(TileType::Marry));
    assert!(after.players[0].married);
    assert_eq!(after.players[0].money, 30000);
    assert_eq!(after.players[1].money, 15000);
    assert_eq!(after.players[2].money, 15000);
    assert_eq!(events.len(), 4);
    assert!(matches!(&events[0], GameEvent::Married { player_id } if player_id == "p1"));
    assert_eq!(money_event(&events[1]), ("p2", -5000, "ご祝儀"));
    assert_eq!(money_event(&events[2]), ("p3", -5000, "ご祝儀"));
    assert_eq!(money_event(&events[3]), ("p1", 10000, "ご祝儀(受取)"));
    assert_eq!(after.phase, TurnPhase::Moving);
}

#[test]
fn marry_takes_nothing_from_players_who_have_retired() {
    let mut state = game(4);
    state.current_turn = 2;
    state.players[0].retired = true;
    let (after, events) = land(&state, &stop(TileType::Marry));
    assert_eq!(after.players[0].money, 20000);
    assert_eq!(after.players[1].money, 15000);
    assert_eq!(after.players[2].money, 30000);
    assert_eq!(after.players[3].money, 15000);
    assert_eq!(events.len(), 4);
    assert_eq!(money_event(&events[1]), ("p2", -5000, "ご祝儀"));
    assert_eq!(money_event(&events[2]), ("p4", -5000, "ご祝儀"));
    // The last event counts every other player, retired or not.
    assert_eq!(money_event(&events[3]), ("p3", 15000, "ご祝儀(受取)"));
}

#[test]
fn marry_a_second_time_does_nothing() {
    let mut state = game(3);
    state.players[0].married = true;
    let (after, events) = land(&state, &stop(TileType::Marry));
    assert!(events.is_empty());
    assert_eq!(after.players[0].money, 20000);
    assert_eq!(after.players[1].money, 20000);
}

#[test]
fn baby_adds_a_child_and_collects_gifts() {
    let mut state = game(2);
    state.players[0].children = 5;
    let (after, events) = land(&state, &stop(TileType::Baby));
    assert_eq!(after.players[0].children, 6);
    assert_eq!(after.players[0].money, 25000);
    assert_eq!(after.players[1].money, 15000);
    assert_eq!(events.len(), 3);
    assert!(matches!(&events[0], GameEvent::BabyBorn { player_id, children }
        if player_id == "p1" && *children == 6));
    assert_eq!(money_event(&events[1]), ("p2", -5000, "出産祝い"));
    assert_eq!(money_event(&events[2]), ("p1", 5000, "出産祝い(受取)"));
}

#[test]
fn baby_stops_at_six_children() {
    let mut state = game(2);
    state.players[0].children = 6;
    let (after, events) = land(&state, &stop(TileType::Baby));
    assert_eq!(after.players[0].children, 6);
    assert_eq!(after.players[1].money, 20000);
    assert!(events.is_empty());
}

#[test]
fn stock_is_bought_where_the_balance_allows() {
    let mut state = game(2);
    state.players[0].money = 10000;
    let (after, events) = land(&state, &stop(TileType::Stock));
    assert_eq!(after.players[0].money, 0);
    assert_eq!(after.players[0].stocks.len(), 1);
    assert_eq!(after.players[0].stocks[0].id, "stock_74");
    assert_eq!(after.players[0].stocks[0].name, "株券");
    assert_eq!(after.rng_seed, 45454805674);
    assert!(matches!(&events[0], GameEvent::StockPurchased { player_id } if player_id == "p1"));

    state.players[0].money = 9999;
    let (after, events) = land(&state, &stop(TileType::Stock));
    assert_eq!(after.players[0].money, 9999);
    assert!(after.players[0].stocks.is_empty());
    assert_eq!(after.rng_seed, 42);
    assert!(events.is_empty());
}

#[test]
fn insurance_offers_what_the_player_does_not_hold() {
    let mut state = game(2);
    let (after, events) = land(&state, &stop(TileType::Insurance));
    assert_eq!(after.phase, TurnPhase::ChoosingAction);
    assert_eq!(
        choices(&events[0]),
        vec![("life", "生命保険に加入"), ("auto", "自動車保険に加入"), ("skip", "加入しない")]
    );
    state.players[0].life_insurance = true;
    let (_, events) = land(&state, &stop(TileType::Insurance));
    assert_eq!(choices(&events[0]), vec![("auto", "自動車保険に加入"), ("skip", "加入しない")]);
    state.players[0].auto_insurance = true;
    let (after, events) = land(&state, &stop(TileType::Insurance));
    assert_eq!(choices(&events[0]), vec![("skip", "加入しない")]);
    assert_eq!(after.phase, TurnPhase::ChoosingAction);
}

#[test]
fn tax_is_a_tenth_of_the_salary() {
    let mut state = game(2);
    state.players[0].salary = 30019;
    let (after, events) = land(&state, &stop(TileType::Tax));
    assert_eq!(after.players[0].money, 20000 - 3001);
    assert_eq!(money_event(&events[0]), ("p1", -3001, "税金"));
    state.players[0].salary = 10;
    let (after, events) = land(&state, &stop(TileType::Tax));
    assert_eq!(after.players[0].money, 19999);
    assert_eq!(money_event(&events[0]), ("p1", -1, "税金"));
    state.players[0].salary = u32::MAX;
    let (_, events) = land(&state, &stop(TileType::Tax));
    assert_eq!(money_event(&events[0]), ("p1", -429496729, "税金"));
}

#[test]
fn tax_is_five_thousand_where_a_tenth_is_nothing() {
    let mut state = game(2);
    state.players[0].salary = 0;
    let (after, events) = land(&state, &stop(TileType::Tax));
    assert_eq!(after.players[0].money, 15000);
    assert_eq!(money_event(&events[0]), ("p1", -5000, "税金"));
    state.players[0].salary = 9;
    state.players[0].money = 100;
    let (after, _) = land(&state, &stop(TileType::Tax));
    assert_eq!(after.players[0].money, -4900);
}

#[test]
fn lawsuit_offers_the_other_players_who_have_not_retired() {
    let mut state = game(4);
    state.current_turn = 1;
    state.players[3].retired = true;
    let (after, events) = land(&state, &stop(TileType::Lawsuit));
    assert_eq!(after.phase, TurnPhase::ChoosingAction);
    assert_eq!(
        choices(&events[0]),
        vec![("p1", "Player 1を訴える"), ("p3", "Player 3を訴える")]
    );
}

#[test]
fn lawsuit_with_nobody_to_sue_asks_nothing() {
    let mut state = game(2);
    state.players[1].retired = true;
    let (after, events) = land(&state, &stop(TileType::Lawsuit));
    assert_eq!(after.phase, TurnPhase::Moving);
    assert!(events.is_empty());
}

#[test]
fn branch_numbers_the_ways_that_have_no_label() {
    let state = game(2);
    let mut tile = stop(TileType::Branch);
    tile.next = vec![7, 8];
    let (after, events) = land(&state, &tile);
    assert_eq!(after.phase, TurnPhase::ChoosingPath);
    assert_eq!(choices(&events[0]), vec![("0", "道 1"), ("1", "道 2")]);
    tile.next = vec![];
    let (after, events) = land(&state, &tile);
    assert_eq!(after.phase, TurnPhase::ChoosingPath);
    assert!(choices(&events[0]).is_empty());
}

#[test]
fn branch_with_many_ways_counts_in_decimal() {
    let state = game(2);
    let mut tile = stop(TileType::Branch);
    tile.next = (0..12).collect();
    tile.labels = Some(vec![]);
    let (_, events) = land(&state, &tile);
    let offered = choices(&events[0]);
    assert_eq!(offered.len(), 12);
    assert_eq!(offered[9], ("9", "道 10"));
    assert_eq!(offered[11], ("11", "道 12"));
}

#[test]
fn start_is_a_branch_only_with_more_than_one_way() {
    let state = game(2);
    let mut tile = stop(TileType::Start);
    tile.next = vec![3];
    let (after, events) = land(&state, &tile);
    assert_eq!(after.phase, TurnPhase::Moving);
    assert!(events.is_empty());
    tile.next = vec![3, 4];
    tile.labels = Some(vec!["Left".to_string()]);
    let (after, events) = land(&state, &tile);
    assert_eq!(after.phase, TurnPhase::ChoosingPath);
    assert_eq!(choices(&events[0]), vec![("0", "Left"), ("1", "道 2")]);
}

#[test]
fn retire_marks_the_mover() {
    let mut state = game(3);
    state.current_turn = 2;
    let (after, events) = land(&state, &stop(TileType::Retire));
    assert!(after.players[2].retired);
    assert!(!after.players[0].retired);
    assert!(matches!(&events[0], GameEvent::PlayerRetired { player_id } if player_id == "p3"));
}

#[test]
fn resolving_leaves_the_given_snapshot_alone() {
    let state = game(3);
    let _ = land(&state, &stop(TileType::Marry));
    assert!(!state.players[0].married);
    assert_eq!(state.players[1].money, 20000);
    assert_eq!(state.rng_seed, 42);
}

#[test]
fn tax_is_what_a_tenth_in_floating_point_gives() {
    let mut state = game(2);
    let mut salaries: Vec<u32> = (0..3000).collect();
    for k in 0..2000u32 {
        salaries.push(u32::MAX - k);
        salaries.push(1_000_000_000 + k * 7);
        salaries.push(k * 999_983);
    }
    for salary in salaries {
        state.players[0].salary = salary;
        let by_float = (salary as f64 * 0.1) as i64;
        let expected = if by_float > 0 { by_float } else { 5000 };
        let (_, events) = land(&state, &stop(TileType::Tax));
        assert_eq!(money_event(&events[0]).1, -expected, "salary {}", salary);
    }
}
