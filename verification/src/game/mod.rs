//! The game: its data, its rules and the engine that applies them.

pub mod board;
pub mod engine;
pub mod events;
pub mod laws;
pub mod map;
pub mod player;
pub mod ranking;
pub mod rules;
pub mod state;
pub mod traits;
pub mod turns;

pub use board::{Board, Tile};
pub use engine::ClassicGameEngine;
pub use events::{ClassicEventResolver, StandardRoulette};
pub use map::{Career, House, InterestRate, MapData, Position, TileData, TileEvent, TileType};
pub use player::{PlayerId, PlayerState, PromissoryNote, Stock};
pub use state::{
    GameChoice, GameEvent, GameState, InsuranceType, PlayerAction, Ranking, SpinResult, TurnPhase,
};
pub use traits::{EventResolver, GameEngine, Roulette};
