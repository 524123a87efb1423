//! A turn-based life-simulation board game: the rule engine that turns a
//! snapshot and a player's intent into the next snapshot, and the room table
//! that decides which requests are legal and which messages they produce.
//!
//! Contracts are stated over models: every type that owns text or lists has a
//! view, written `@`, and the operations are specified by spec functions over
//! the views.

pub mod chat;
pub mod config;
pub mod game;
pub mod protocol;
pub mod room;
pub mod search;
pub mod session;
pub mod text;
