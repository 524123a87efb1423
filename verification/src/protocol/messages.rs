//! The tagged messages of the protocol. Framing and encoding are left to the
//! transport; the library takes decoded messages and gives messages to encode.

use vstd::prelude::*;
use crate::game::board::{Board, BoardView};
use crate::game::map::{
    Career, CareerView, House, HouseView, clone_careers, clone_houses, clone_strings,
};
use crate::game::player::{PlayerId, PlayerState, PlayerStateView};
use crate::game::state::{TurnPhase, clone_players};

verus! {

/// Identifies a room: six characters.
pub type RoomId = String;

/// What a client sends.
#[derive(Debug)]
pub enum ClientMessage {
    CreateRoom { player_name: String, map_id: String },
    JoinRoom { room_id: RoomId, player_name: String },
    LeaveRoom,
    StartGame,
    SpinRoulette,
    ChoicePath { path_index: usize },
    ChoiceAction { action_id: String },
    ChatMessage { text: String },
}

/// The model of a message of a client.
pub enum ClientMessageView {
    CreateRoom { player_name: Seq<char>, map_id: Seq<char> },
    JoinRoom { room_id: Seq<char>, player_name: Seq<char> },
    LeaveRoom,
    StartGame,
    SpinRoulette,
    ChoicePath { path_index: usize },
    ChoiceAction { action_id: Seq<char> },
    ChatMessage { text: Seq<char> },
}

impl DeepView for ClientMessage {
    type V = ClientMessageView;

    open spec fn deep_view(&self) -> ClientMessageView {
        self@
    }
}

impl View for ClientMessage {
    type V = ClientMessageView;

    open spec fn view(&self) -> ClientMessageView {
        match self {
            ClientMessage::CreateRoom { player_name, map_id } => ClientMessageView::CreateRoom {
                player_name: player_name@,
                map_id: map_id@,
            },
            ClientMessage::JoinRoom { room_id, player_name } => ClientMessageView::JoinRoom {
                room_id: room_id@,
                player_name: player_name@,
            },
            ClientMessage::LeaveRoom => ClientMessageView::LeaveRoom,
            ClientMessage::StartGame => ClientMessageView::StartGame,
            ClientMessage::SpinRoulette => ClientMessageView::SpinRoulette,
            ClientMessage::ChoicePath { path_index } => ClientMessageView::ChoicePath {
                path_index: *path_index,
            },
            ClientMessage::ChoiceAction { action_id } => ClientMessageView::ChoiceAction {
                action_id: action_id@,
            },
            ClientMessage::ChatMessage { text } => ClientMessageView::ChatMessage { text: text@ },
        }
    }
}

impl Clone for ClientMessage {
    fn clone(&self) -> (r: Self)
        ensures
            r@ == self@,
    {
        match self {
            ClientMessage::CreateRoom { player_name, map_id } => ClientMessage::CreateRoom {
                player_name: player_name.clone(),
                map_id: map_id.clone(),
            },
            ClientMessage::JoinRoom { room_id, player_name } => ClientMessage::JoinRoom {
                room_id: room_id.clone(),
                player_name: player_name.clone(),
            },
            ClientMessage::LeaveRoom => ClientMessage::LeaveRoom,
            ClientMessage::StartGame => ClientMessage::StartGame,
            ClientMessage::SpinRoulette => ClientMessage::SpinRoulette,
            ClientMessage::ChoicePath { path_index } => ClientMessage::ChoicePath {
                path_index: *path_index,
            },
            ClientMessage::ChoiceAction { action_id } => ClientMessage::ChoiceAction {
                action_id: action_id.clone(),
            },
            ClientMessage::ChatMessage { text } => ClientMessage::ChatMessage { text: text.clone() },
        }
    }
}

/// One entry of a choice, as it is sent.
#[derive(Debug)]
pub struct Choice {
    pub id: String,
    pub label: String,
}

/// The model of an entry of a choice as it is sent.
pub struct ChoiceView {
    pub id: Seq<char>,
    pub label: Seq<char>,
}

impl View for Choice {
    type V = ChoiceView;

    open spec fn view(&self) -> ChoiceView {
        ChoiceView { id: self.id@, label: self.label@ }
    }
}

impl DeepView for Choice {
    type V = ChoiceView;

    open spec fn deep_view(&self) -> ChoiceView {
        self@
    }
}

impl Clone for Choice {
    fn clone(&self) -> (r: Self)
        ensures
            r@ == self@,
    {
        Choice { id: self.id.clone(), label: self.label.clone() }
    }
}

/// One entry of the final ranking, as it is sent.
#[derive(Debug)]
pub struct RankingEntry {
    pub player_id: PlayerId,
    pub player_name: String,
    pub total_assets: i64,
    pub rank: u32,
}

/// The model of an entry of the ranking as it is sent.
pub struct RankingEntryView {
    pub player_id: Seq<char>,
    pub player_name: Seq<char>,
    pub total_assets: i64,
    pub rank: u32,
}

impl View for RankingEntry {
    type V = RankingEntryView;

    open spec fn view(&self) -> RankingEntryView {
        RankingEntryView {
            player_id: self.player_id@,
            player_name: self.player_name@,
            total_assets: self.total_assets,
            rank: self.rank,
        }
    }
}

impl DeepView for RankingEntry {
    type V = RankingEntryView;

    open spec fn deep_view(&self) -> RankingEntryView {
        self@
    }
}

impl Clone for RankingEntry {
    fn clone(&self) -> (r: Self)
        ensures
            r@ == self@,
    {
        RankingEntry {
            player_id: self.player_id.clone(),
            player_name: self.player_name.clone(),
            total_assets: self.total_assets,
            rank: self.rank,
        }
    }
}

/// A player of a room, as the room's state names them.
#[derive(Debug)]
pub struct PlayerInfo {
    pub id: PlayerId,
    pub name: String,
}

/// The model of a player of a room as the room names them.
pub struct PlayerInfoView {
    pub id: Seq<char>,
    pub name: Seq<char>,
}

impl View for PlayerInfo {
    type V = PlayerInfoView;

    open spec fn view(&self) -> PlayerInfoView {
        PlayerInfoView { id: self.id@, name: self.name@ }
    }
}

impl DeepView for PlayerInfo {
    type V = PlayerInfoView;

    open spec fn deep_view(&self) -> PlayerInfoView {
        self@
    }
}

impl Clone for PlayerInfo {
    fn clone(&self) -> (r: Self)
        ensures
            r@ == self@,
    {
        PlayerInfo { id: self.id.clone(), name: self.name.clone() }
    }
}

/// What the server sends.
#[derive(Debug)]
#[allow(inconsistent_fields)]
pub enum ServerMessage {
    RoomCreated { room_id: RoomId, invite_url: String, player_id: PlayerId },
    PlayerJoined { player_id: PlayerId, player_name: String },
    PlayerLeft { player_id: PlayerId },
    GameStarted {
        turn_order: Vec<PlayerId>,
        board: Board,
        players: Vec<PlayerState>,
        careers: Vec<Career>,
        houses: Vec<House>,
    },
    GameSync { players: Vec<PlayerState>, current_turn: usize, phase: TurnPhase },
    RouletteResult { player_id: PlayerId, value: u32 },
    PlayerMoved { player_id: PlayerId, position: usize },
    ChoiceRequired { choices: Vec<Choice> },
    TurnChanged { current_turn: usize, player_id: PlayerId },
    GameEnded { rankings: Vec<RankingEntry> },
    ChatBroadcast { player_id: PlayerId, player_name: String, text: String },
    Error { code: String, message: String },
    RoomState { room_id: RoomId, player_id: PlayerId, players: Vec<PlayerInfo>, status: String },
}

/// The model of a message of the server.
#[allow(inconsistent_fields)]
pub enum ServerMessageView {
    RoomCreated { room_id: Seq<char>, invite_url: Seq<char>, player_id: Seq<char> },
    PlayerJoined { player_id: Seq<char>, player_name: Seq<char> },
    PlayerLeft { player_id: Seq<char> },
    GameStarted {
        turn_order: Seq<Seq<char>>,
        board: BoardView,
        players: Seq<PlayerStateView>,
        careers: Seq<CareerView>,
        houses: Seq<HouseView>,
    },
    GameSync { players: Seq<PlayerStateView>, current_turn: int, phase: TurnPhase },
    RouletteResult { player_id: Seq<char>, value: u32 },
    PlayerMoved { player_id: Seq<char>, position: usize },
    ChoiceRequired { choices: Seq<ChoiceView> },
    TurnChanged { current_turn: int, player_id: Seq<char> },
    GameEnded { rankings: Seq<RankingEntryView> },
    ChatBroadcast { player_id: Seq<char>, player_name: Seq<char>, text: Seq<char> },
    Error { code: Seq<char>, message: Seq<char> },
    RoomState {
        room_id: Seq<char>,
        player_id: Seq<char>,
        players: Seq<PlayerInfoView>,
        status: Seq<char>,
    },
}

impl View for ServerMessage {
    type V = ServerMessageView;

    open spec fn view(&self) -> ServerMessageView {
        match self {
            ServerMessage::RoomCreated { room_id, invite_url, player_id } => {
                ServerMessageView::RoomCreated {
                    room_id: room_id@,
                    invite_url: invite_url@,
                    player_id: player_id@,
                }
            },
            ServerMessage::PlayerJoined { player_id, player_name } => {
                ServerMessageView::PlayerJoined { player_id: player_id@, player_name: player_name@ }
            },
            ServerMessage::PlayerLeft { player_id } => ServerMessageView::PlayerLeft {
                player_id: player_id@,
            },
            ServerMessage::GameStarted { turn_order, board, players, careers, houses } => {
                ServerMessageView::GameStarted {
                    turn_order: turn_order.deep_view(),
                    board: board@,
                    players: players.deep_view(),
                    careers: careers.deep_view(),
                    houses: houses.deep_view(),
                }
            },
            ServerMessage::GameSync { players, current_turn, phase } => ServerMessageView::GameSync {
                players: players.deep_view(),
                current_turn: *current_turn as int,
                phase: *phase,
            },
            ServerMessage::RouletteResult { player_id, value } => {
                ServerMessageView::RouletteResult { player_id: player_id@, value: *value }
            },
            ServerMessage::PlayerMoved { player_id, position } => ServerMessageView::PlayerMoved {
                player_id: player_id@,
                position: *position,
            },
            ServerMessage::ChoiceRequired { choices } => ServerMessageView::ChoiceRequired {
                choices: choices.deep_view(),
            },
            ServerMessage::TurnChanged { current_turn, player_id } => {
                ServerMessageView::TurnChanged {
                    current_turn: *current_turn as int,
                    player_id: player_id@,
                }
            },
            ServerMessage::GameEnded { rankings } => ServerMessageView::GameEnded {
                rankings: rankings.deep_view(),
            },
            ServerMessage::ChatBroadcast { player_id, player_name, text } => {
                ServerMessageView::ChatBroadcast {
                    player_id: player_id@,
                    player_name: player_name@,
                    text: text@,
                }
            },
            ServerMessage::Error { code, message } => ServerMessageView::Error {
                code: code@,
                message: message@,
            },
            ServerMessage::RoomState { room_id, player_id, players, status } => {
                ServerMessageView::RoomState {
                    room_id: room_id@,
                    player_id: player_id@,
                    players: players.deep_view(),
                    status: status@,
                }
            },
        }
    }
}

impl DeepView for ServerMessage {
    type V = ServerMessageView;

    open spec fn deep_view(&self) -> ServerMessageView {
        self@
    }
}

impl Clone for ServerMessage {
    fn clone(&self) -> (r: Self)
        ensures
            r@ == self@,
    {
        match self {
            ServerMessage::RoomCreated { room_id, invite_url, player_id } => {
                ServerMessage::RoomCreated {
                    room_id: room_id.clone(),
                    invite_url: invite_url.clone(),
                    player_id: player_id.clone(),
                }
            },
            ServerMessage::PlayerJoined { player_id, player_name } => ServerMessage::PlayerJoined {
                player_id: player_id.clone(),
                player_name: player_name.clone(),
            },
            ServerMessage::PlayerLeft { player_id } => ServerMessage::PlayerLeft {
                player_id: player_id.clone(),
            },
            ServerMessage::GameStarted { turn_order, board, players, careers, houses } => {
                ServerMessage::GameStarted {
                    turn_order: clone_strings(turn_order),
                    board: board.clone(),
                    players: clone_players(players),
                    careers: clone_careers(careers),
                    houses: clone_houses(houses),
                }
            },
            ServerMessage::GameSync { players, current_turn, phase } => ServerMessage::GameSync {
                players: clone_players(players),
                current_turn: *current_turn,
                phase: *phase,
            },
            ServerMessage::RouletteResult { player_id, value } => ServerMessage::RouletteResult {
                player_id: player_id.clone(),
                value: *value,
            },
            ServerMessage::PlayerMoved { player_id, position } => ServerMessage::PlayerMoved {
                player_id: player_id.clone(),
                position: *position,
            },
            ServerMessage::ChoiceRequired { choices } => {
                let copied = choices.clone();
                assert(copied.deep_view() =~= choices.deep_view());
                ServerMessage::ChoiceRequired { choices: copied }
            },
            ServerMessage::TurnChanged { current_turn, player_id } => ServerMessage::TurnChanged {
                current_turn: *current_turn,
                player_id: player_id.clone(),
            },
            ServerMessage::GameEnded { rankings } => {
                let copied = rankings.clone();
                assert(copied.deep_view() =~= rankings.deep_view());
                ServerMessage::GameEnded { rankings: copied }
            },
            ServerMessage::ChatBroadcast { player_id, player_name, text } => {
                ServerMessage::ChatBroadcast {
                    player_id: player_id.clone(),
                    player_name: player_name.clone(),
                    text: text.clone(),
                }
            },
            ServerMessage::Error { code, message } => ServerMessage::Error {
                code: code.clone(),
                message: message.clone(),
            },
            ServerMessage::RoomState { room_id, player_id, players, status } => {
                let copied = players.clone();
                assert(copied.deep_view() =~= players.deep_view());
                ServerMessage::RoomState {
                    room_id: room_id.clone(),
                    player_id: player_id.clone(),
                    players: copied,
                    status: status.clone(),
                }
            },
        }
    }
}

} // verus!
