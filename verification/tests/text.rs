use nine_life::chat::handle_chat;
use nine_life::config::ServerConfig;
use nine_life::protocol::messages::ServerMessage;
use nine_life::room::models::RoomStatus;
use nine_life::text::{decimal_string, owned, push_decimal, push_signed, str_eq};

#[test]
fn strings_compare_by_their_characters() {
    assert!(str_eq("", ""));
    assert!(str_eq("skip", "skip"));
    assert!(!str_eq("skip", "skiP"));
    assert!(!str_eq("skip", "skipp"));
    assert!(!str_eq("skip", ""));
    assert!(str_eq("給料日", "給料日"));
    assert!(!str_eq("給料日", "給料月"));
}

#[test]
fn numbers_are_written_in_decimal() {
    assert_eq!(decimal_string(0), "0");
    assert_eq!(decimal_string(7), "7");
    assert_eq!(decimal_string(10), "10");
    assert_eq!(decimal_string(1234567890), "1234567890");
    assert_eq!(decimal_string(u64::MAX), "18446744073709551615");
    let mut s = "n=".to_string();
    push_decimal(&mut s, 405);
    assert_eq!(s, "n=405");
}

#[test]
fn signed_numbers_carry_their_sign() {
    let mut s = String::new();
    push_signed(&mut s, -1);
    s.push(' ');
    push_signed(&mut s, 0);
    s.push(' ');
    push_signed(&mut s, 50000);
    s.push(' ');
    push_signed(&mut s, i64::MIN);
    s.push(' ');
    push_signed(&mut s, i64::MAX);
    assert_eq!(s, "-1 0 50000 -9223372036854775808 9223372036854775807");
    assert_eq!(owned("abc"), "abc");
}

#[test]
fn the_default_config_listens_everywhere_on_port_3000() {
    let config = ServerConfig::default();
    assert_eq!(config.host, "0.0.0.0");
    assert_eq!(config.port, 3000);
    assert_eq!(config.max_players_per_room, 6);
    assert_eq!(config.max_rooms, 100);
    assert_eq!(config.addr(), "0.0.0.0:3000");
}

#[test]
fn the_address_joins_host_and_port() {
    let config = ServerConfig {
        host: "localhost".to_string(),
        port: 65535,
        max_players_per_room: 2,
        max_rooms: 1,
    };
    assert_eq!(config.addr(), "localhost:65535");
    let config = ServerConfig { host: String::new(), port: 0, max_players_per_room: 2, max_rooms: 1 };
    assert_eq!(config.addr(), ":0");
}

#[test]
fn a_room_status_is_written_in_lower_case() {
    assert_eq!(RoomStatus::Lobby.to_string(), "lobby");
    assert_eq!(RoomStatus::Playing.to_string(), "playing");
    assert_eq!(RoomStatus::Finished.to_string(), "finished");
}

#[test]
fn a_chat_line_names_its_author() {
    match handle_chat("id-1", "Alice", "hello".to_string()) {
        ServerMessage::ChatBroadcast { player_id, player_name, text } => {
            assert_eq!(player_id, "id-1");
            assert_eq!(player_name, "Alice");
            assert_eq!(text, "hello");
        }
        other => panic!("unexpected message {:?}", other),
    }
}
