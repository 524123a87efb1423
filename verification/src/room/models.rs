//! A room and the players connected to it. `T` is the channel on which a
//! player is reached; the library stores it and hands it back, and never uses
//! it.

use vstd::prelude::*;
use crate::game::engine::ClassicGameEngine;
use crate::game::turns::init_outcome;
use crate::game::map::{MapData, MapDataView};
use crate::game::player::PlayerId;
use crate::game::state::{GameState, GameStateView};
use crate::game::traits::GameEngine;
use crate::protocol::messages::RoomId;
use crate::search::{first_index, is_first_index, lemma_first_index_found, lemma_first_index_missing};
use crate::text::{owned, str_eq};

verus! {

/// Where a room stands.
#[derive(Clone, Copy, Debug, PartialEq, Eq, Structural)]
pub enum RoomStatus {
    Lobby,
    Playing,
    Finished,
}

impl RoomStatus {
    /// The status in lower case, as the room's information gives it.
    pub open spec fn text(self) -> Seq<char> {
        match self {
            RoomStatus::Lobby => "lobby"@,
            RoomStatus::Playing => "playing"@,
            RoomStatus::Finished => "finished"@,
        }
    }

    /// The status in lower case.
    pub fn to_string(&self) -> (r: String)
        ensures
            r@ == self.text(),
    {
        match self {
            RoomStatus::Lobby => owned("lobby"),
            RoomStatus::Playing => owned("playing"),
            RoomStatus::Finished => owned("finished"),
        }
    }
}

/// A connected player.
pub struct Player<T> {
    pub id: PlayerId,
    pub name: String,
    pub transport: T,
}

/// The model of a connected player.
pub struct PlayerView<T> {
    pub id: Seq<char>,
    pub name: Seq<char>,
    pub transport: T,
}

impl<T> View for Player<T> {
    type V = PlayerView<T>;

    open spec fn view(&self) -> PlayerView<T> {
        PlayerView { id: self.id@, name: self.name@, transport: self.transport }
    }
}

impl<T> DeepView for Player<T> {
    type V = PlayerView<T>;

    open spec fn deep_view(&self) -> PlayerView<T> {
        self@
    }
}

/// A room: the players who joined, and their game once it has started.
pub struct Room<T> {
    pub id: RoomId,
    pub host: PlayerId,
    pub players: Vec<Player<T>>,
    pub status: RoomStatus,
    pub map_id: String,
    pub max_players: usize,
    pub game_state: Option<GameState>,
    pub engine: Option<ClassicGameEngine>,
    pub map_data: Option<MapData>,
}

/// The model of a room.
pub struct RoomView<T> {
    pub id: Seq<char>,
    pub host: Seq<char>,
    pub players: Seq<PlayerView<T>>,
    pub status: RoomStatus,
    pub map_id: Seq<char>,
    pub max_players: usize,
    pub game_state: Option<GameStateView>,
    pub engine: Option<ClassicGameEngine>,
    pub map_data: Option<MapDataView>,
}

impl<T> RoomView<T> {
    /// A new room: in the lobby, with its host as the only player.
    pub open spec fn opened(
        id: Seq<char>,
        host_id: Seq<char>,
        host_name: Seq<char>,
        map_id: Seq<char>,
        transport: T,
        max_players: usize,
    ) -> RoomView<T> {
        RoomView {
            id,
            host: host_id,
            players: seq![PlayerView { id: host_id, name: host_name, transport }],
            status: RoomStatus::Lobby,
            map_id,
            max_players,
            game_state: None,
            engine: None,
            map_data: None,
        }
    }

    /// A game has an engine, which plays by the classic rules with the
    /// standard roulette, and in its snapshot some player has the turn.
    pub open spec fn wf(self) -> bool {
        &&& self.game_state is Some <==> self.engine is Some
        &&& self.engine matches Some(e) ==> e.classic()
        &&& self.game_state matches Some(s) ==> s.wf()
    }

    /// The room holds as many players as it may.
    pub open spec fn is_full(self) -> bool {
        self.players.len() >= self.max_players
    }

    /// The first player with this id.
    pub open spec fn find_player(self, player_id: Seq<char>) -> Option<PlayerView<T>> {
        crate::search::first_match(self.players, |p: PlayerView<T>| p.id == player_id)
    }

    /// The players in the order in which they joined, as a game takes them.
    pub open spec fn player_info(self) -> Seq<(Seq<char>, Seq<char>)> {
        self.players.map_values(|p: PlayerView<T>| (p.id, p.name))
    }

    /// Why a game cannot start in this room, if it cannot.
    pub open spec fn start_refusal(self) -> Option<Seq<char>> {
        if self.status != RoomStatus::Lobby {
            Some("room is not in lobby state"@)
        } else if self.players.len() < 2 {
            Some("need at least 2 players"@)
        } else {
            None
        }
    }

    /// The room once its game has started on `map`.
    pub open spec fn started(self, map: MapDataView, engine: ClassicGameEngine) -> RoomView<T> {
        RoomView {
            game_state: Some(init_outcome(self.player_info(), map)),
            engine: Some(engine),
            map_data: Some(map),
            status: RoomStatus::Playing,
            ..self
        }
    }
}

impl<T> View for Room<T> {
    type V = RoomView<T>;

    open spec fn view(&self) -> RoomView<T> {
        RoomView {
            id: self.id@,
            host: self.host@,
            players: self.players.deep_view(),
            status: self.status,
            map_id: self.map_id@,
            max_players: self.max_players,
            game_state: self.game_state.deep_view(),
            engine: self.engine,
            map_data: self.map_data.deep_view(),
        }
    }
}

impl<T> DeepView for Room<T> {
    type V = RoomView<T>;

    open spec fn deep_view(&self) -> RoomView<T> {
        self@
    }
}

impl<T> Room<T> {
    /// A new room: in the lobby, with its host as the only player.
    pub fn new(
        id: RoomId,
        host_id: PlayerId,
        host_name: String,
        map_id: String,
        transport: T,
        max_players: usize,
    ) -> (r: Self)
        ensures
            r@ == RoomView::opened(id@, host_id@, host_name@, map_id@, transport, max_players),
            r@.wf(),
    {
        let host = Player { id: host_id.clone(), name: host_name, transport };
        let mut players: Vec<Player<T>> = Vec::new();
        players.push(host);
        let r = Room {
            id,
            host: host_id,
            players,
            status: RoomStatus::Lobby,
            map_id,
            max_players,
            game_state: None,
            engine: None,
            map_data: None,
        };
        assert(r@.players =~= seq![PlayerView { id: host_id@, name: host_name@, transport }]);
        r
    }

    /// Whether the room holds as many players as it may.
    pub fn is_full(&self) -> (r: bool)
        ensures
            r == self@.is_full(),
    {
        self.players.len() >= self.max_players
    }

    /// The place of the first player with this id.
    pub fn player_index(&self, player_id: &str) -> (r: Option<usize>)
        ensures
            match r {
                Some(i) => i < self.players@.len() && first_index(
                    self@.players,
                    |p: PlayerView<T>| p.id == player_id@,
                ) == Some(i as int),
                None => first_index(self@.players, |p: PlayerView<T>| p.id == player_id@) is None,
            },
    {
        let ghost all = self@.players;
        let mut i: usize = 0;
        while i < self.players.len()
            invariant
                i <= self.players.len(),
                all == self@.players,
                forall|j: int| 0 <= j < i ==> self.players@[j].id@ != player_id@,
            decreases self.players.len() - i,
        {
            if str_eq(self.players[i].id.as_str(), player_id) {
                proof {
                    let p = |p: PlayerView<T>| p.id == player_id@;
                    assert forall|j: int| 0 <= j < i implies !p(#[trigger] all[j]) by {
                        assert(all[j] == self.players@[j]@);
                    }
                    assert(all[i as int] == self.players@[i as int]@);
                    assert(is_first_index(all, p, i as int));
                    lemma_first_index_found(all, p, i as int);
                }
                return Some(i);
            }
            i += 1;
        }
        proof {
            let p = |p: PlayerView<T>| p.id == player_id@;
            assert forall|j: int| 0 <= j < all.len() implies !p(#[trigger] all[j]) by {
                assert(all[j] == self.players@[j]@);
            }
            lemma_first_index_missing(all, p);
        }
        None
    }

    /// The first player with this id.
    pub fn find_player(&self, player_id: &str) -> (r: Option<&Player<T>>)
        ensures
            r.deep_view() == self@.find_player(player_id@),
    {
        match self.player_index(player_id) {
            Some(i) => {
                assert(self@.players[i as int] == self.players@[i as int]@);
                Some(&self.players[i])
            },
            None => None,
        }
    }

    /// The players in the order in which they joined, as a game takes them.
    fn player_info(&self) -> (r: Vec<(PlayerId, String)>)
        ensures
            r.deep_view() == self@.player_info(),
    {
        let mut info: Vec<(PlayerId, String)> = Vec::new();
        let mut i: usize = 0;
        while i < self.players.len()
            invariant
                i <= self.players.len(),
                info@.len() == i,
                forall|j: int|
                    0 <= j < i ==> (#[trigger] info@[j]).0@ == self.players@[j].id@ && info@[j].1@
                        == self.players@[j].name@,
            decreases self.players.len() - i,
        {
            info.push((self.players[i].id.clone(), self.players[i].name.clone()));
            i += 1;
        }
        assert(info.deep_view() =~= self@.player_info());
        info
    }

    /// Starts the game: in the lobby and with two players or more, the room
    /// gets the classic engine and the snapshot that a game on `map` starts
    /// from.
    pub fn start_game(&mut self, map: MapData) -> (r: Result<&GameState, String>)
        requires
            old(self)@.wf(),
        ensures
            final(self)@.wf(),
            match r {
                Ok(state) => old(self)@.start_refusal() is None && final(self)@.engine is Some
                    && final(self)@.engine->0.classic() && final(self)@ == old(self)@.started(
                    map@,
                    final(self)@.engine->0,
                ) && final(self)@.game_state == Some(state@),
                Err(e) => old(self)@.start_refusal() == Some(e@) && final(self)@ == old(self)@,
            },
    {
        match self.status {
            RoomStatus::Lobby => {},
            _ => {
                return Err(owned("room is not in lobby state"));
            },
        }
        if self.players.len() < 2 {
            return Err(owned("need at least 2 players"));
        }
        let engine = ClassicGameEngine::new();
        let player_info = self.player_info();
        let game_state = engine.init(player_info, &map);
        self.game_state = Some(game_state);
        self.engine = Some(engine);
        self.map_data = Some(map);
        self.status = RoomStatus::Playing;
        Ok(self.game_state.as_ref().unwrap())
    }
}

} // verus!
