//! The messages that clients and the server exchange, once decoded.

pub mod messages;

pub use messages::{Choice, ClientMessage, PlayerInfo, RankingEntry, RoomId, ServerMessage};
pub use crate::game::player::PlayerId;
