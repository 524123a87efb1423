use nine_life::game::map::{InterestRate, MapData, Position, TileData, TileType};
use nine_life::protocol::messages::{ClientMessage, ServerMessage};
use nine_life::room::manager::RoomManager;
use nine_life::session::{Audience, Outbound, Session};

fn tile(id: usize, tile_type: TileType, next: Vec<usize>) -> TileData {
    TileData {
        id,
        tile_type,
        position: Position { x_bits: 0, y_bits: 0 },
        next,
        event: None,
        labels: None,
    }
}

fn manager() -> RoomManager<&'static str> {
    let mut tiles: Vec<TileData> = (0..40).map(|i| tile(i, TileType::Action, vec![i + 1])).collect();
    tiles.push(tile(40, TileType::Retire, vec![]));
    let mut m = RoomManager::new(2);
    m.add_map(MapData {
        id: "classic".to_string(),
        name: "Classic".to_string(),
        version: "1".to_string(),
        start_money: 10000,
        loan_unit: 20000,
        loan_interest_rate: InterestRate { basis_points: 12500 },
        tiles,
        careers: vec![],
        houses: vec![],
    });
    m
}

fn create(m: &mut RoomManager<&'static str>) -> Session {
    let first = ClientMessage::CreateRoom {
        player_name: "Alice".to_string(),
        map_id: "classic".to_string(),
    };
    Session::open(m, Some(first), "alice").0.unwrap()
}

fn join(m: &mut RoomManager<&'static str>, room_id: &str) -> Session {
    let first =
        ClientMessage::JoinRoom { room_id: room_id.to_string(), player_name: "Bob".to_string() };
    Session::open(m, Some(first), "bob").0.unwrap()
}

fn error_of(out: &[Outbound]) -> (&str, &str) {
    assert_eq!(out.len(), 1);
    assert_eq!(out[0].audience, Audience::Sender);
    match &out[0].message {
        ServerMessage::Error { code, message } => (code.as_str(), message.as_str()),
        other => panic!("unexpected message {:?}", other),
    }
}

#[test]
fn creating_a_room_opens_a_session() {
    let mut m = manager();
    let first = ClientMessage::CreateRoom {
        player_name: "Alice".to_string(),
        map_id: "classic".to_string(),
    };
    let (session, out) = Session::open(&mut m, Some(first), "alice");
    let session = session.unwrap();
    assert_eq!(session.player_name, "Alice");
    assert_eq!(out.len(), 2);
    assert_eq!(out[0].audience, Audience::Sender);
    assert_eq!(out[1].audience, Audience::Sender);
    match &out[0].message {
        ServerMessage::RoomCreated { room_id, invite_url, player_id } => {
            assert_eq!(*room_id, session.room_id);
            assert_eq!(*invite_url, format!("/room/{}", session.room_id));
            assert_eq!(*player_id, session.player_id);
        }
        other => panic!("unexpected message {:?}", other),
    }
    match &out[1].message {
        ServerMessage::RoomState { room_id, player_id, players, status } => {
            assert_eq!(*room_id, session.room_id);
            assert_eq!(*player_id, session.player_id);
            assert_eq!(players.len(), 1);
            assert_eq!(players[0].id, session.player_id);
            assert_eq!(players[0].name, "Alice");
            assert_eq!(status, "Lobby");
        }
        other => panic!("unexpected message {:?}", other),
    }
    assert_eq!(m.broadcast(&session.room_id), vec![&"alice"]);
}

#[test]
fn joining_a_room_tells_the_room_and_the_player() {
    let mut m = manager();
    let host = create(&mut m);
    let first = ClientMessage::JoinRoom {
        room_id: host.room_id.clone(),
        player_name: "Bob".to_string(),
    };
    let (session, out) = Session::open(&mut m, Some(first), "bob");
    let session = session.unwrap();
    assert_eq!(session.room_id, host.room_id);
    assert_eq!(session.player_name, "Bob");
    assert_eq!(out.len(), 2);
    assert_eq!(out[0].audience, Audience::Room);
    assert!(matches!(&out[0].message, ServerMessage::PlayerJoined { player_id, player_name }
        if *player_id == session.player_id && player_name == "Bob"));
    assert_eq!(out[1].audience, Audience::Sender);
    match &out[1].message {
        ServerMessage::RoomState { room_id, player_id, players, status } => {
            assert_eq!(*room_id, host.room_id);
            assert_eq!(*player_id, session.player_id);
            assert_eq!(players.len(), 2);
            assert_eq!(players[0].id, host.player_id);
            assert_eq!(players[1].id, session.player_id);
            assert_eq!(status, "lobby");
        }
        other => panic!("unexpected message {:?}", other),
    }
    assert_eq!(m.broadcast(&host.room_id), vec![&"alice", &"bob"]);
}

#[test]
fn a_join_that_fails_ends_the_connection() {
    let mut m = manager();
    let first =
        ClientMessage::JoinRoom { room_id: "NOROOM".to_string(), player_name: "Bob".to_string() };
    let (session, out) = Session::open(&mut m, Some(first), "bob");
    assert!(session.is_none());
    assert_eq!(error_of(&out), ("JOIN_FAILED", "room not found"));

    let host = create(&mut m);
    join(&mut m, &host.room_id);
    let first = ClientMessage::JoinRoom {
        room_id: host.room_id.clone(),
        player_name: "Carol".to_string(),
    };
    let (session, out) = Session::open(&mut m, Some(first), "carol");
    assert!(session.is_none());
    assert_eq!(error_of(&out), ("JOIN_FAILED", "room is full"));
    assert_eq!(m.broadcast(&host.room_id).len(), 2);
}

#[test]
fn any_other_first_message_ends_the_connection() {
    let mut m = manager();
    for first in [
        ClientMessage::LeaveRoom,
        ClientMessage::StartGame,
        ClientMessage::SpinRoulette,
        ClientMessage::ChoicePath { path_index: 0 },
        ClientMessage::ChoiceAction { action_id: "skip".to_string() },
        ClientMessage::ChatMessage { text: "hi".to_string() },
    ] {
        let (session, out) = Session::open(&mut m, Some(first), "x");
        assert!(session.is_none());
        assert_eq!(error_of(&out), ("INVALID_FIRST_MESSAGE", "Expected CreateRoom or JoinRoom"));
    }
}

#[test]
fn a_connection_that_ends_before_its_first_message_says_nothing() {
    let mut m = manager();
    let (session, out) = Session::open(&mut m, None, "x");
    assert!(session.is_none());
    assert!(out.is_empty());
}

#[test]
fn chat_goes_to_the_room() {
    let mut m = manager();
    let host = create(&mut m);
    let (open, out) = host.handle(&mut m, Some(ClientMessage::ChatMessage { text: "hello".to_string() }));
    assert!(open);
    assert_eq!(out.len(), 1);
    assert_eq!(out[0].audience, Audience::Room);
    assert!(matches!(&out[0].message, ServerMessage::ChatBroadcast { player_id, player_name, text }
        if *player_id == host.player_id && player_name == "Alice" && text == "hello"));
}

#[test]
fn leaving_ends_the_connection_and_tells_the_room() {
    let mut m = manager();
    let host = create(&mut m);
    let guest = join(&mut m, &host.room_id);
    let (open, out) = guest.handle(&mut m, Some(ClientMessage::LeaveRoom));
    assert!(!open);
    assert_eq!(out.len(), 1);
    assert_eq!(out[0].audience, Audience::Room);
    assert!(matches!(&out[0].message, ServerMessage::PlayerLeft { player_id }
        if *player_id == guest.player_id));
    assert_eq!(m.broadcast(&host.room_id), vec![&"alice"]);
}

#[test]
fn a_lost_connection_is_a_leave() {
    let mut m = manager();
    let host = create(&mut m);
    let guest = join(&mut m, &host.room_id);
    let (open, out) = host.handle(&mut m, None);
    assert!(!open);
    assert!(matches!(&out[0].message, ServerMessage::PlayerLeft { player_id }
        if *player_id == host.player_id));
    assert_eq!(m.broadcast(&host.room_id), vec![&"bob"]);
    let (open, out) = guest.handle(&mut m, None);
    assert!(!open);
    assert_eq!(out.len(), 1);
    assert!(m.get_room_info(&host.room_id).is_none());
    // Leaving twice says the same and changes nothing.
    let (open, out) = guest.handle(&mut m, Some(ClientMessage::LeaveRoom));
    assert!(!open);
    assert_eq!(out.len(), 1);
}

#[test]
fn a_game_is_played_over_sessions() {
    let mut m = manager();
    let host = create(&mut m);
    let guest = join(&mut m, &host.room_id);

    let (open, out) = guest.handle(&mut m, Some(ClientMessage::StartGame));
    assert!(open);
    assert_eq!(error_of(&out), ("GAME_ERROR", "only host can start game"));
    let (open, out) = host.handle(&mut m, Some(ClientMessage::SpinRoulette));
    assert!(open);
    assert_eq!(error_of(&out), ("GAME_ERROR", "game not started"));

    let (open, out) = host.handle(&mut m, Some(ClientMessage::StartGame));
    assert!(open);
    assert_eq!(out.len(), 2);
    assert!(out.iter().all(|o| o.audience == Audience::Room));
    assert!(matches!(&out[0].message, ServerMessage::GameStarted { .. }));
    assert!(matches!(&out[1].message, ServerMessage::GameSync { .. }));

    let (_, out) = guest.handle(&mut m, Some(ClientMessage::SpinRoulette));
    assert_eq!(error_of(&out), ("GAME_ERROR", "not your turn"));
    let (_, out) = host.handle(&mut m, Some(ClientMessage::ChoicePath { path_index: 0 }));
    assert_eq!(error_of(&out), ("GAME_ERROR", "not in path choice phase"));
    let (_, out) =
        host.handle(&mut m, Some(ClientMessage::ChoiceAction { action_id: "skip".to_string() }));
    assert_eq!(error_of(&out), ("GAME_ERROR", "not in action choice phase"));

    let (open, out) = host.handle(&mut m, Some(ClientMessage::SpinRoulette));
    assert!(open);
    assert_eq!(out.len(), 4);
    assert!(out.iter().all(|o| o.audience == Audience::Room));
    assert!(matches!(&out[0].message, ServerMessage::RouletteResult { value, .. } if *value == 5));
    assert!(matches!(&out[2].message, ServerMessage::TurnChanged { player_id, .. }
        if *player_id == guest.player_id));
    assert!(matches!(&out[3].message, ServerMessage::GameSync { current_turn, .. }
        if *current_turn == 1));
}

#[test]
fn entering_a_room_twice_is_not_understood() {
    let mut m = manager();
    let host = create(&mut m);
    let again = ClientMessage::CreateRoom {
        player_name: "Alice".to_string(),
        map_id: "classic".to_string(),
    };
    let (open, out) = host.handle(&mut m, Some(again));
    assert!(open);
    assert_eq!(error_of(&out), ("UNKNOWN_MESSAGE", "Unrecognized message type"));
    let again =
        ClientMessage::JoinRoom { room_id: host.room_id.clone(), player_name: "A".to_string() };
    let (open, out) = host.handle(&mut m, Some(again));
    assert!(open);
    assert_eq!(error_of(&out), ("UNKNOWN_MESSAGE", "Unrecognized message type"));
    assert_eq!(m.broadcast(&host.room_id).len(), 1);
}
