//! Rooms: one game among the players who joined it, and the table of the
//! rooms that are open.

pub mod ids;
pub mod laws;
pub mod manager;
pub mod models;
pub mod play;
pub mod table;

pub use manager::{MapSource, RoomInfo, RoomManager};
pub use models::{Player, Room, RoomStatus};
