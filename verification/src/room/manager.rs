//! The room orchestrator: the table of open rooms. It names the room of every
//! request, decides whether the request is legal, lets the engine do it and
//! gives the messages to send. Access is one caller at a time; the caller
//! holds the lock.

use vstd::prelude::*;
use vstd::string::StringExecFns;
use crate::game::map::{MapData, MapDataView};
use crate::game::player::PlayerId;
use crate::game::state::TurnPhase;
use crate::protocol::messages::{
    PlayerInfo, PlayerInfoView, RoomId, ServerMessage, ServerMessageView,
};
use crate::game::events::roulette_value;
use crate::game::rules;
use crate::room::play::{
    action_outcome, choice_messages, game_sync, parse_action, path_outcome, play_refusal, settled,
    spin_outcome, start_messages,
};
use crate::room::ids::{PLAYER_ID_LENGTH, fresh_player_id, generate_room_id, is_room_id};
use crate::room::models::{Player, PlayerView, Room, RoomStatus, RoomView};
use crate::room::table::{
    distinct_ids, lemma_table_lookup, lemma_table_missing, lemma_table_push, lemma_table_remove,
    lemma_table_update, table_of,
};
use crate::search::{
    first_match, is_first_index, lemma_first_index_found, lemma_first_index_missing,
};
use crate::text::{owned, str_eq};

verus! {

/// What is known of the map with an id: the asset, or why it could not be
/// loaded.
pub struct MapSource {
    pub id: String,
    pub asset: Result<MapData, String>,
}

/// The model of what is known of a map.
pub struct MapSourceView {
    pub id: Seq<char>,
    pub asset: Result<MapDataView, Seq<char>>,
}

impl View for MapSource {
    type V = MapSourceView;

    open spec fn view(&self) -> MapSourceView {
        MapSourceView {
            id: self.id@,
            asset: match self.asset {
                Ok(map) => Ok(map@),
                Err(e) => Err(e@),
            },
        }
    }
}

impl DeepView for MapSource {
    type V = MapSourceView;

    open spec fn deep_view(&self) -> MapSourceView {
        self@
    }
}

/// The table of open rooms, the most players a room may hold, and the maps
/// that games can be played on.
pub struct RoomManager<T> {
    rooms: Vec<Room<T>>,
    max_players_per_room: usize,
    maps: Vec<MapSource>,
}

/// The model of the table of rooms: the rooms by their ids.
pub struct RoomManagerView<T> {
    pub rooms: Map<Seq<char>, RoomView<T>>,
    pub max_players_per_room: usize,
    pub maps: Seq<MapSourceView>,
}

/// What a room shows of itself to anyone who asks.
#[derive(Debug)]
pub struct RoomInfo {
    pub id: RoomId,
    pub players: Vec<PlayerInfo>,
    pub status: String,
    pub map_id: String,
    pub player_count: usize,
    pub max_players: usize,
}

/// The model of what a room shows of itself.
pub struct RoomInfoView {
    pub id: Seq<char>,
    pub players: Seq<PlayerInfoView>,
    pub status: Seq<char>,
    pub map_id: Seq<char>,
    pub player_count: usize,
    pub max_players: usize,
}

impl View for RoomInfo {
    type V = RoomInfoView;

    open spec fn view(&self) -> RoomInfoView {
        RoomInfoView {
            id: self.id@,
            players: self.players.deep_view(),
            status: self.status@,
            map_id: self.map_id@,
            player_count: self.player_count,
            max_players: self.max_players,
        }
    }
}

impl DeepView for RoomInfo {
    type V = RoomInfoView;

    open spec fn deep_view(&self) -> RoomInfoView {
        self@
    }
}

impl Clone for RoomInfo {
    fn clone(&self) -> (r: Self)
        ensures
            r@ == self@,
    {
        let players = self.players.clone();
        assert(players.deep_view() =~= self.players.deep_view());
        RoomInfo {
            id: self.id.clone(),
            players,
            status: self.status.clone(),
            map_id: self.map_id.clone(),
            player_count: self.player_count,
            max_players: self.max_players,
        }
    }
}

/// The players of a room as its information names them.
pub open spec fn player_infos<T>(players: Seq<PlayerView<T>>) -> Seq<PlayerInfoView> {
    players.map_values(|p: PlayerView<T>| PlayerInfoView { id: p.id, name: p.name })
}

/// What a room shows of itself.
pub open spec fn info_of<T>(room: RoomView<T>) -> RoomInfoView {
    RoomInfoView {
        id: room.id,
        players: player_infos(room.players),
        status: room.status.text(),
        map_id: room.map_id,
        player_count: room.players.len() as usize,
        max_players: room.max_players,
    }
}

/// The players that are not the one with this id.
pub open spec fn others<T>(players: Seq<PlayerView<T>>, player_id: Seq<char>) -> Seq<PlayerView<T>> {
    players.filter(|p: PlayerView<T>| p.id != player_id)
}

/// The channels of the players, in order.
pub open spec fn transports<T>(players: Seq<PlayerView<T>>) -> Seq<T> {
    players.map_values(|p: PlayerView<T>| p.transport)
}

/// Why a player cannot join a room, if they cannot.
pub open spec fn join_refusal<T>(m: RoomManagerView<T>, room_id: Seq<char>) -> Option<Seq<char>> {
    if !m.rooms.dom().contains(room_id) {
        Some("room not found"@)
    } else if m.rooms[room_id].status != RoomStatus::Lobby {
        Some("room is not in lobby state"@)
    } else if m.rooms[room_id].is_full() {
        Some("room is full"@)
    } else {
        None
    }
}

/// The table after a player has taken a seat in a room.
pub open spec fn joined<T>(
    m: RoomManagerView<T>,
    room_id: Seq<char>,
    player: PlayerView<T>,
) -> RoomManagerView<T> {
    let room = m.rooms[room_id];
    RoomManagerView {
        rooms: m.rooms.insert(room_id, RoomView { players: room.players.push(player), ..room }),
        ..m
    }
}

/// Why a player cannot leave a room, if they cannot.
pub open spec fn leave_refusal<T>(
    m: RoomManagerView<T>,
    room_id: Seq<char>,
    player_id: Seq<char>,
) -> Option<Seq<char>> {
    if !m.rooms.dom().contains(room_id) {
        Some("room not found"@)
    } else if others(m.rooms[room_id].players, player_id).len() == m.rooms[room_id].players.len() {
        Some("player not found in room"@)
    } else {
        None
    }
}

/// The table after a player has left a room: the room without the player, or
/// no room if nobody is left in it.
pub open spec fn left<T>(
    m: RoomManagerView<T>,
    room_id: Seq<char>,
    player_id: Seq<char>,
) -> RoomManagerView<T> {
    let room = m.rooms[room_id];
    let remaining = others(room.players, player_id);
    RoomManagerView {
        rooms: if remaining.len() == 0 {
            m.rooms.remove(room_id)
        } else {
            m.rooms.insert(room_id, RoomView { players: remaining, ..room })
        },
        ..m
    }
}

/// The table with one room replaced.
pub open spec fn with_room<T>(
    m: RoomManagerView<T>,
    room_id: Seq<char>,
    room: RoomView<T>,
) -> RoomManagerView<T> {
    RoomManagerView { rooms: m.rooms.insert(room_id, room), ..m }
}

/// Why a request to play that needs the phase `phase` is refused, if it is:
/// no such room, no game, another player's turn, or another phase.
pub open spec fn request_refusal<T>(
    m: RoomManagerView<T>,
    room_id: Seq<char>,
    player_id: Seq<char>,
    phase: TurnPhase,
) -> Option<Seq<char>> {
    if !m.rooms.dom().contains(room_id) {
        Some("room not found"@)
    } else {
        play_refusal(m.rooms[room_id], player_id, phase)
    }
}

/// What a request to play comes to: the table after it, and the messages for
/// the room or the reason for the refusal. A request that is refused changes
/// nothing.
pub open spec fn request_outcome<T>(
    m: RoomManagerView<T>,
    room_id: Seq<char>,
    refusal: Option<Seq<char>>,
    outcome: (RoomView<T>, Seq<ServerMessageView>),
) -> (RoomManagerView<T>, Result<Seq<ServerMessageView>, Seq<char>>) {
    match refusal {
        Some(e) => (m, Err(e)),
        None => (with_room(m, room_id, outcome.0), Ok(outcome.1)),
    }
}

/// What a request to spin comes to.
pub open spec fn spin_request<T>(m: RoomManagerView<T>, room_id: Seq<char>, player_id: Seq<char>) -> (
    RoomManagerView<T>,
    Result<Seq<ServerMessageView>, Seq<char>>,
) {
    request_outcome(
        m,
        room_id,
        request_refusal(m, room_id, player_id, TurnPhase::WaitingForSpin),
        spin_outcome(m.rooms[room_id], player_id),
    )
}

/// What the choice of a way out comes to.
pub open spec fn path_request<T>(
    m: RoomManagerView<T>,
    room_id: Seq<char>,
    player_id: Seq<char>,
    path_index: usize,
) -> (RoomManagerView<T>, Result<Seq<ServerMessageView>, Seq<char>>) {
    request_outcome(
        m,
        room_id,
        request_refusal(m, room_id, player_id, TurnPhase::ChoosingPath),
        path_outcome(m.rooms[room_id], path_index),
    )
}

/// What the choice of an entry comes to.
pub open spec fn action_request<T>(
    m: RoomManagerView<T>,
    room_id: Seq<char>,
    player_id: Seq<char>,
    action_id: Seq<char>,
) -> (RoomManagerView<T>, Result<Seq<ServerMessageView>, Seq<char>>) {
    request_outcome(
        m,
        room_id,
        request_refusal(m, room_id, player_id, TurnPhase::ChoosingAction),
        action_outcome(m.rooms[room_id], action_id),
    )
}

/// The model of a reply: the messages for the room, or the reason for the
/// refusal.
pub open spec fn reply_view(r: Result<Vec<ServerMessage>, String>) -> Result<
    Seq<ServerMessageView>,
    Seq<char>,
> {
    match r {
        Ok(msgs) => Ok(msgs.deep_view()),
        Err(e) => Err(e@),
    }
}

/// Why a game cannot be started, if it cannot: no such room, not the host,
/// no such map or a map that could not be loaded, not in the lobby, or fewer
/// than two players.
pub open spec fn start_refusal<T>(
    m: RoomManagerView<T>,
    room_id: Seq<char>,
    player_id: Seq<char>,
) -> Option<Seq<char>> {
    if !m.rooms.dom().contains(room_id) {
        Some("room not found"@)
    } else if m.rooms[room_id].host != player_id {
        Some("only host can start game"@)
    } else {
        match map_lookup(m.maps, m.rooms[room_id].map_id) {
            Err(e) => Some(e),
            Ok(_) => m.rooms[room_id].start_refusal(),
        }
    }
}

/// The map asset with this id, or why there is none: the first that is known
/// under the id, which may be an asset that could not be loaded; no map is
/// known under any other id.
pub open spec fn map_lookup(maps: Seq<MapSourceView>, map_id: Seq<char>) -> Result<
    MapDataView,
    Seq<char>,
> {
    match first_match(maps, |m: MapSourceView| m.id == map_id) {
        Some(source) => source.asset,
        None => Err("unknown map: "@ + map_id),
    }
}

/// Takes the players with this id out of the list.
fn remove_player<T>(players: &mut Vec<Player<T>>, player_id: &str)
    ensures
        final(players).deep_view() == others(old(players).deep_view(), player_id@),
{
    let ghost all = players.deep_view();
    let ghost keep = |p: PlayerView<T>| p.id != player_id@;
    let ghost mut seen: int = 0;
    let mut i: usize = 0;
    proof {
        reveal(Seq::filter);
        assert(players.deep_view().take(0) =~= all.take(0).filter(keep));
        assert(players.deep_view().skip(0) =~= all.skip(0));
    }
    while i < players.len()
        invariant
            i <= players.len(),
            keep == |p: PlayerView<T>| p.id != player_id@,
            i <= seen <= all.len(),
            players.deep_view().take(i as int) == all.take(seen).filter(keep),
            players.deep_view().skip(i as int) == all.skip(seen),
        decreases players.len() - i,
    {
        let ghost before = players.deep_view();
        proof {
            reveal(Seq::filter);
            assert(before.skip(i as int).len() == before.len() - i);
            assert(all.skip(seen).len() == all.len() - seen);
            assert(seen < all.len());
            assert(before.skip(i as int)[0] == all.skip(seen)[0]);
            assert(all.take(seen + 1).drop_last() =~= all.take(seen));
            assert(all.take(seen + 1).last() == all[seen]);
            assert(before[i as int] == all[seen]);
        }
        if str_eq(players[i].id.as_str(), player_id) {
            players.remove(i);
            proof {
                let after = players.deep_view();
                assert(after =~= before.remove(i as int));
                assert(after.take(i as int) =~= before.take(i as int));
                assert(after.skip(i as int) =~= before.skip(i as int).skip(1));
                assert(all.skip(seen).skip(1) =~= all.skip(seen + 1));
                seen = seen + 1;
            }
        } else {
            proof {
                assert(before.take(i + 1) =~= before.take(i as int).push(before[i as int]));
                assert(before.skip(i + 1) =~= before.skip(i as int).skip(1));
                assert(all.skip(seen).skip(1) =~= all.skip(seen + 1));
                seen = seen + 1;
            }
            i += 1;
        }
    }
    proof {
        assert(players.deep_view().skip(i as int).len() == 0);
        assert(all.skip(seen).len() == 0);
        assert(all.take(seen) =~= all);
        assert(players.deep_view().take(i as int) =~= players.deep_view());
    }
}

impl<T> View for RoomManager<T> {
    type V = RoomManagerView<T>;

    closed spec fn view(&self) -> RoomManagerView<T> {
        RoomManagerView {
            rooms: table_of(self.rooms.deep_view()),
            max_players_per_room: self.max_players_per_room,
            maps: self.maps.deep_view(),
        }
    }
}

impl<T> RoomManager<T> {
    /// No two rooms share an id, and every room is well formed.
    pub closed spec fn wf(&self) -> bool {
        &&& distinct_ids(self.rooms.deep_view())
        &&& forall|i: int| 0 <= i < self.rooms@.len() ==> (#[trigger] self.rooms@[i])@.wf()
    }

    /// In a well-formed table every room is well formed and filed under its
    /// own id.
    pub proof fn lemma_rooms_wf(&self, room_id: Seq<char>)
        requires
            self.wf(),
            self@.rooms.dom().contains(room_id),
        ensures
            self@.rooms[room_id].wf(),
            self@.rooms[room_id].id == room_id,
    {
        let rooms = self.rooms.deep_view();
        let i = choose|i: int| 0 <= i < rooms.len() && (#[trigger] rooms[i]).id == room_id;
        lemma_table_lookup(rooms, i);
        assert(rooms[i] == self.rooms@[i]@);
    }

    /// A table without rooms and without maps.
    pub fn new(max_players_per_room: usize) -> (r: Self)
        ensures
            r.wf(),
            r@.rooms == Map::<Seq<char>, RoomView<T>>::empty(),
            r@.max_players_per_room == max_players_per_room,
            r@.maps == Seq::<MapSourceView>::empty(),
    {
        let r = RoomManager { rooms: Vec::new(), max_players_per_room, maps: Vec::new() };
        assert(r@.rooms =~= Map::<Seq<char>, RoomView<T>>::empty());
        assert(r@.maps =~= Seq::<MapSourceView>::empty());
        r
    }

    /// Adds a map asset that games can be played on, under its own id.
    pub fn add_map(&mut self, map: MapData)
        requires
            old(self).wf(),
        ensures
            final(self).wf(),
            final(self)@ == (RoomManagerView {
                maps: old(self)@.maps.push(
                    MapSourceView { id: map@.id, asset: Ok::<MapDataView, Seq<char>>(map@) },
                ),
                ..old(self)@
            }),
    {
        let source = MapSource { id: map.id.clone(), asset: Ok(map) };
        self.maps.push(source);
        assert(self.maps.deep_view() =~= old(self).maps.deep_view().push(source@));
    }

    /// Notes that the map with this id could not be loaded, and why. A game on
    /// it is refused with that reason when it is to start.
    pub fn add_failed_map(&mut self, map_id: String, reason: String)
        requires
            old(self).wf(),
        ensures
            final(self).wf(),
            final(self)@ == (RoomManagerView {
                maps: old(self)@.maps.push(
                    MapSourceView { id: map_id@, asset: Err::<MapDataView, Seq<char>>(reason@) },
                ),
                ..old(self)@
            }),
    {
        let source = MapSource { id: map_id, asset: Err(reason) };
        self.maps.push(source);
        assert(self.maps.deep_view() =~= old(self).maps.deep_view().push(source@));
    }

    /// The map asset with this id, or why there is none.
    pub fn load_map(&self, map_id: &str) -> (r: Result<MapData, String>)
        ensures
            match r {
                Ok(map) => map_lookup(self@.maps, map_id@) == Ok::<MapDataView, Seq<char>>(map@),
                Err(e) => map_lookup(self@.maps, map_id@) == Err::<MapDataView, Seq<char>>(e@),
            },
    {
        let ghost all = self.maps.deep_view();
        let mut i: usize = 0;
        while i < self.maps.len()
            invariant
                i <= self.maps.len(),
                all == self.maps.deep_view(),
                forall|j: int| 0 <= j < i ==> self.maps@[j].id@ != map_id@,
            decreases self.maps.len() - i,
        {
            if str_eq(self.maps[i].id.as_str(), map_id) {
                proof {
                    let p = |m: MapSourceView| m.id == map_id@;
                    assert forall|j: int| 0 <= j < i implies !p(#[trigger] all[j]) by {
                        assert(all[j] == self.maps@[j]@);
                    }
                    assert(all[i as int] == self.maps@[i as int]@);
                    assert(is_first_index(all, p, i as int));
                    lemma_first_index_found(all, p, i as int);
                }
                return match &self.maps[i].asset {
                    Ok(map) => Ok(map.clone()),
                    Err(reason) => Err(reason.clone()),
                };
            }
            i += 1;
        }
        proof {
            let p = |m: MapSourceView| m.id == map_id@;
            assert forall|j: int| 0 <= j < all.len() implies !p(#[trigger] all[j]) by {
                assert(all[j] == self.maps@[j]@);
            }
            lemma_first_index_missing(all, p);
        }
        let mut message = owned("unknown map: ");
        message.append(map_id);
        Err(message)
    }

    /// The place of the room with this id.
    fn room_index(&self, room_id: &str) -> (r: Option<usize>)
        requires
            self.wf(),
        ensures
            match r {
                Some(i) => i < self.rooms@.len() && self.rooms@[i as int].id@ == room_id@
                    && self@.rooms.dom().contains(room_id@) && self@.rooms[room_id@]
                    == self.rooms@[i as int]@,
                None => !self@.rooms.dom().contains(room_id@),
            },
    {
        let ghost all = self.rooms.deep_view();
        let mut i: usize = 0;
        while i < self.rooms.len()
            invariant
                self.wf(),
                i <= self.rooms.len(),
                all == self.rooms.deep_view(),
                forall|j: int| 0 <= j < i ==> self.rooms@[j].id@ != room_id@,
            decreases self.rooms.len() - i,
        {
            if str_eq(self.rooms[i].id.as_str(), room_id) {
                proof {
                    assert(all[i as int] == self.rooms@[i as int]@);
                    lemma_table_lookup(all, i as int);
                }
                return Some(i);
            }
            i += 1;
        }
        proof {
            assert forall|j: int| 0 <= j < all.len() implies (#[trigger] all[j]).id != room_id@ by {
                assert(all[j] == self.rooms@[j]@);
            }
            lemma_table_missing(all, room_id@);
        }
        None
    }

    /// Files a room under its id, in place of the room that had the id.
    fn file_room(&mut self, room: Room<T>)
        requires
            old(self).wf(),
            room@.wf(),
        ensures
            final(self).wf(),
            final(self)@ == (RoomManagerView {
                rooms: old(self)@.rooms.insert(room@.id, room@),
                ..old(self)@
            }),
    {
        let ghost before = self.rooms.deep_view();
        let ghost filed = room@;
        match self.room_index(room.id.as_str()) {
            Some(i) => {
                self.rooms[i] = room;
                proof {
                    assert(self.rooms.deep_view() =~= before.update(i as int, filed));
                    assert(before[i as int] == old(self).rooms@[i as int]@);
                    lemma_table_update(before, i as int, filed);
                }
            },
            None => {
                self.rooms.push(room);
                proof {
                    assert(self.rooms.deep_view() =~= before.push(filed));
                    lemma_table_push(before, filed);
                }
            },
        }
    }

    /// Opens a room with the given ids, its host the only player. A room that
    /// had the id is replaced.
    pub fn open_room(
        &mut self,
        room_id: RoomId,
        player_id: PlayerId,
        host_name: String,
        map_id: String,
        transport: T,
    )
        requires
            old(self).wf(),
        ensures
            final(self).wf(),
            final(self)@ == (RoomManagerView {
                rooms: old(self)@.rooms.insert(
                    room_id@,
                    RoomView::opened(
                        room_id@,
                        player_id@,
                        host_name@,
                        map_id@,
                        transport,
                        old(self)@.max_players_per_room,
                    ),
                ),
                ..old(self)@
            }),
    {
        let room = Room::new(
            room_id,
            player_id,
            host_name,
            map_id,
            transport,
            self.max_players_per_room,
        );
        self.file_room(room);
    }

    /// Opens a room under a fresh id for a host with a fresh id, and returns
    /// the two ids.
    pub fn create_room(&mut self, host_name: String, map_id: String, transport: T) -> (r: (
        RoomId,
        PlayerId,
    ))
        requires
            old(self).wf(),
        ensures
            final(self).wf(),
            is_room_id(r.0@),
            r.1@.len() == PLAYER_ID_LENGTH,
            final(self)@ == (RoomManagerView {
                rooms: old(self)@.rooms.insert(
                    r.0@,
                    RoomView::opened(
                        r.0@,
                        r.1@,
                        host_name@,
                        map_id@,
                        transport,
                        old(self)@.max_players_per_room,
                    ),
                ),
                ..old(self)@
            }),
    {
        let room_id = generate_room_id();
        let player_id = fresh_player_id();
        self.open_room(room_id.clone(), player_id.clone(), host_name, map_id, transport);
        (room_id, player_id)
    }

    /// Seats a player with the given id in a room that is in its lobby and not
    /// full.
    pub fn join_room_as(
        &mut self,
        room_id: &str,
        player_id: PlayerId,
        player_name: String,
        transport: T,
    ) -> (r: Result<(), String>)
        requires
            old(self).wf(),
        ensures
            final(self).wf(),
            match r {
                Ok(_) => join_refusal(old(self)@, room_id@) is None && final(self)@ == joined(
                    old(self)@,
                    room_id@,
                    PlayerView { id: player_id@, name: player_name@, transport },
                ),
                Err(e) => join_refusal(old(self)@, room_id@) == Some(e@) && final(self)@ == old(self)@,
            },
    {
        let i: usize = match self.room_index(room_id) {
            Some(i) => i,
            None => {
                return Err(owned("room not found"));
            },
        };
        match self.rooms[i].status {
            RoomStatus::Lobby => {},
            _ => {
                return Err(owned("room is not in lobby state"));
            },
        }
        if self.rooms[i].is_full() {
            return Err(owned("room is full"));
        }
        let ghost before = self.rooms.deep_view();
        let player = Player { id: player_id, name: player_name, transport };
        self.rooms[i].players.push(player);
        proof {
            let room = before[i as int];
            let seated = RoomView { players: room.players.push(player@), ..room };
            assert(before[i as int] == old(self).rooms@[i as int]@);
            assert(self.rooms@[i as int]@.players =~= room.players.push(player@));
            assert(self.rooms.deep_view() =~= before.update(i as int, seated));
            lemma_table_update(before, i as int, seated);
        }
        Ok(())
    }

    /// Seats a player under a fresh id in a room that is in its lobby and not
    /// full, and returns the id.
    pub fn join_room(&mut self, room_id: &str, player_name: String, transport: T) -> (r: Result<
        PlayerId,
        String,
    >)
        requires
            old(self).wf(),
        ensures
            final(self).wf(),
            match r {
                Ok(player_id) => join_refusal(old(self)@, room_id@) is None
                    && player_id@.len() == PLAYER_ID_LENGTH && final(self)@ == joined(
                    old(self)@,
                    room_id@,
                    PlayerView { id: player_id@, name: player_name@, transport },
                ),
                Err(e) => join_refusal(old(self)@, room_id@) == Some(e@) && final(self)@ == old(self)@,
            },
    {
        let i: usize = match self.room_index(room_id) {
            Some(i) => i,
            None => {
                return Err(owned("room not found"));
            },
        };
        match self.rooms[i].status {
            RoomStatus::Lobby => {},
            _ => {
                return Err(owned("room is not in lobby state"));
            },
        }
        if self.rooms[i].is_full() {
            return Err(owned("room is full"));
        }
        let player_id = fresh_player_id();
        match self.join_room_as(room_id, player_id.clone(), player_name, transport) {
            Ok(_) => Ok(player_id),
            Err(e) => Err(e),
        }
    }

    /// Takes a player out of a room, and the room out of the table if nobody
    /// is left in it.
    pub fn leave_room(&mut self, room_id: &str, player_id: &str) -> (r: Result<(), String>)
        requires
            old(self).wf(),
        ensures
            final(self).wf(),
            match r {
                Ok(_) => leave_refusal(old(self)@, room_id@, player_id@) is None && final(self)@
                    == left(old(self)@, room_id@, player_id@),
                Err(e) => leave_refusal(old(self)@, room_id@, player_id@) == Some(e@) && final(self)@ == old(self)@,
            },
    {
        let i: usize = match self.room_index(room_id) {
            Some(i) => i,
            None => {
                return Err(owned("room not found"));
            },
        };
        let ghost before = self.rooms.deep_view();
        let ghost room = before[i as int];
        assert(room == old(self).rooms@[i as int]@);
        let count: usize = self.rooms[i].players.len();
        remove_player(&mut self.rooms[i].players, player_id);
        let ghost remaining = others(room.players, player_id@);
        proof {
            room.players.lemma_filter_len(|p: PlayerView<T>| p.id != player_id@);
        }
        if self.rooms[i].players.len() == count {
            proof {
                lemma_same_players(room.players, player_id@);
                assert(self.rooms.deep_view() =~= before);
            }
            return Err(owned("player not found in room"));
        }
        if self.rooms[i].players.len() == 0 {
            self.rooms.remove(i);
            proof {
                assert(self.rooms.deep_view() =~= before.remove(i as int));
                lemma_table_remove(before, i as int);
                assert forall|k: int| 0 <= k < self.rooms@.len() implies (
                #[trigger] self.rooms@[k])@.wf() by {
                    if k < i {
                        assert(self.rooms@[k] == old(self).rooms@[k]);
                    } else {
                        assert(self.rooms@[k] == old(self).rooms@[k + 1]);
                    }
                }
            }
        } else {
            proof {
                let thinned = RoomView { players: remaining, ..room };
                assert(self.rooms.deep_view() =~= before.update(i as int, thinned));
                lemma_table_update(before, i as int, thinned);
            }
        }
        Ok(())
    }

    /// Starts the game of a room at its host's request, on the map that the
    /// room was opened for.
    pub fn start_game(&mut self, room_id: &str, player_id: &str) -> (r: Result<
        Vec<ServerMessage>,
        String,
    >)
        requires
            old(self).wf(),
        ensures
            final(self).wf(),
            match r {
                Ok(msgs) => {
                    let room = old(self)@.rooms[room_id@];
                    let started = final(self)@.rooms[room_id@];
                    &&& start_refusal(old(self)@, room_id@, player_id@) is None
                    &&& started.engine is Some
                    &&& started.engine->0.classic()
                    &&& started == room.started(
                        map_lookup(old(self)@.maps, room.map_id)->Ok_0,
                        started.engine->0,
                    )
                    &&& final(self)@ == with_room(old(self)@, room_id@, started)
                    &&& msgs.deep_view() == start_messages(started.game_state->0)
                },
                Err(e) => start_refusal(old(self)@, room_id@, player_id@) == Some(e@) && final(self)@ == old(self)@,
            },
    {
        let i: usize = match self.room_index(room_id) {
            Some(i) => i,
            None => {
                return Err(owned("room not found"));
            },
        };
        if !str_eq(self.rooms[i].host.as_str(), player_id) {
            return Err(owned("only host can start game"));
        }
        let map = match self.load_map(self.rooms[i].map_id.as_str()) {
            Ok(map) => map,
            Err(e) => {
                return Err(e);
            },
        };
        let r = Self::start_in(&mut self.rooms[i], map);
        proof {
            self.lemma_room_replaced(old(self), i as int);
        }
        r
    }

    /// Spins the roulette for the player who has the turn and moves them. The
    /// first message gives the value, which the standard roulette reads from
    /// the seed of the room's game; the last is the whole snapshot.
    pub fn spin_roulette(&mut self, room_id: &str, player_id: &str) -> (r: Result<
        Vec<ServerMessage>,
        String,
    >)
        requires
            old(self).wf(),
        ensures
            final(self).wf(),
            final(self)@ == spin_request(old(self)@, room_id@, player_id@).0,
            reply_view(r) == spin_request(old(self)@, room_id@, player_id@).1,
            r matches Ok(msgs) ==> ({
                let seed = old(self)@.rooms[room_id@].game_state->0.rng_seed;
                let stored = final(self)@.rooms[room_id@].game_state->0;
                &&& 1 <= roulette_value(seed) <= 10
                &&& msgs.deep_view().len() >= 3
                &&& msgs.deep_view()[0] == (ServerMessageView::RouletteResult {
                    player_id: player_id@,
                    value: roulette_value(seed),
                })
                &&& msgs.deep_view().last() == game_sync(stored)
            }),
    {
        let i: usize = match self.room_index(room_id) {
            Some(i) => i,
            None => {
                return Err(owned("room not found"));
            },
        };
        let r = Self::spin_in(&mut self.rooms[i], player_id);
        proof {
            self.lemma_room_replaced(old(self), i as int);
            if r is Ok {
                old(self).lemma_rooms_wf(room_id@);
                crate::room::laws::lemma_spin_in_room(old(self)@.rooms[room_id@], player_id@);
            }
        }
        r
    }

    /// Takes the way out of a branch that the player who has the turn chose.
    pub fn choose_path(&mut self, room_id: &str, player_id: &str, path_index: usize) -> (r: Result<
        Vec<ServerMessage>,
        String,
    >)
        requires
            old(self).wf(),
        ensures
            final(self).wf(),
            final(self)@ == path_request(old(self)@, room_id@, player_id@, path_index).0,
            reply_view(r) == path_request(old(self)@, room_id@, player_id@, path_index).1,
    {
        let i: usize = match self.room_index(room_id) {
            Some(i) => i,
            None => {
                return Err(owned("room not found"));
            },
        };
        let r = Self::path_in(&mut self.rooms[i], player_id, path_index);
        proof {
            self.lemma_room_replaced(old(self), i as int);
        }
        r
    }

    /// Applies the entry that the player who has the turn chose where a tile
    /// offered a choice: what the classic rules say of the choice that the
    /// entry's id means. The turn ends whatever was chosen.
    pub fn choose_action(&mut self, room_id: &str, player_id: &str, action_id: String) -> (r:
        Result<Vec<ServerMessage>, String>)
        requires
            old(self).wf(),
        ensures
            final(self).wf(),
            final(self)@ == action_request(old(self)@, room_id@, player_id@, action_id@).0,
            reply_view(r) == action_request(old(self)@, room_id@, player_id@, action_id@).1,
            r matches Ok(msgs) ==> ({
                let room = old(self)@.rooms[room_id@];
                let s = room.game_state->0;
                let choice = rules::chosen(s, parse_action(action_id@, s));
                let outcome = settled(
                    room,
                    choice.0.with_phase(TurnPhase::TurnEnd),
                    choice_messages(choice.1),
                );
                &&& final(self)@.rooms[room_id@] == outcome.0
                &&& msgs.deep_view() == outcome.1
            }),
    {
        let i: usize = match self.room_index(room_id) {
            Some(i) => i,
            None => {
                return Err(owned("room not found"));
            },
        };
        let r = Self::action_in(&mut self.rooms[i], player_id, action_id.as_str());
        proof {
            self.lemma_room_replaced(old(self), i as int);
            if r is Ok {
                old(self).lemma_rooms_wf(room_id@);
                crate::room::laws::lemma_action_in_room(old(self)@.rooms[room_id@], action_id@);
            }
        }
        r
    }

    /// Where one room has changed and kept its id, the table holds the new
    /// room in place of the old one, and is the same table if the room is the
    /// same.
    proof fn lemma_room_replaced(&self, before: &Self, i: int)
        requires
            before.wf(),
            0 <= i < before.rooms@.len(),
            self.rooms@ == before.rooms@.update(i, self.rooms@[i]),
            self.rooms@[i]@.id == before.rooms@[i]@.id,
            self.rooms@[i]@.wf(),
            self.max_players_per_room == before.max_players_per_room,
            self.maps == before.maps,
        ensures
            self.wf(),
            self@ == with_room(before@, self.rooms@[i]@.id, self.rooms@[i]@),
            self.rooms@[i]@ == before.rooms@[i]@ ==> self@ == before@,
            before@.rooms.dom().contains(before.rooms@[i]@.id),
            before@.rooms[before.rooms@[i]@.id] == before.rooms@[i]@,
    {
        let old_rooms = before.rooms.deep_view();
        let room = self.rooms@[i]@;
        assert(old_rooms[i] == before.rooms@[i]@);
        assert(self.rooms.deep_view() =~= old_rooms.update(i, room));
        lemma_table_update(old_rooms, i, room);
        lemma_table_lookup(old_rooms, i);
        assert forall|k: int| 0 <= k < self.rooms@.len() implies (#[trigger] self.rooms@[k])@.wf() by {
            if k != i {
                assert(self.rooms@[k] == before.rooms@[k]);
            }
        }
        if room == old_rooms[i] {
            assert(old_rooms.update(i, room) =~= old_rooms);
        }
    }

    /// What the room with this id shows of itself.
    pub fn get_room_info(&self, room_id: &str) -> (r: Option<RoomInfo>)
        requires
            self.wf(),
        ensures
            match r {
                Some(info) => self@.rooms.dom().contains(room_id@) && info@ == info_of(
                    self@.rooms[room_id@],
                ),
                None => !self@.rooms.dom().contains(room_id@),
            },
    {
        match self.room_index(room_id) {
            Some(i) => {
                let room = &self.rooms[i];
                let mut players: Vec<PlayerInfo> = Vec::new();
                let mut k: usize = 0;
                while k < room.players.len()
                    invariant
                        k <= room.players.len(),
                        players@.len() == k,
                        forall|j: int|
                            0 <= j < k ==> (#[trigger] players@[j])@ == (PlayerInfoView {
                                id: room.players@[j].id@,
                                name: room.players@[j].name@,
                            }),
                    decreases room.players.len() - k,
                {
                    players.push(
                        PlayerInfo {
                            id: room.players[k].id.clone(),
                            name: room.players[k].name.clone(),
                        },
                    );
                    k += 1;
                }
                let info = RoomInfo {
                    id: room.id.clone(),
                    players,
                    status: room.status.to_string(),
                    map_id: room.map_id.clone(),
                    player_count: room.players.len(),
                    max_players: room.max_players,
                };
                assert(info@.players =~= player_infos(room@.players));
                Some(info)
            },
            None => None,
        }
    }

    /// The channels of everyone in the room, in the order in which they
    /// joined: where a message to the room goes. None for a room that is not
    /// open.
    pub fn broadcast(&self, room_id: &str) -> (r: Vec<&T>)
        requires
            self.wf(),
        ensures
            r@.map_values(|t: &T| *t) == if self@.rooms.dom().contains(room_id@) {
                transports(self@.rooms[room_id@].players)
            } else {
                Seq::<T>::empty()
            },
    {
        let mut targets: Vec<&T> = Vec::new();
        match self.room_index(room_id) {
            Some(i) => {
                let room = &self.rooms[i];
                let mut k: usize = 0;
                while k < room.players.len()
                    invariant
                        k <= room.players.len(),
                        targets@.len() == k,
                        forall|j: int|
                            0 <= j < k ==> *(#[trigger] targets@[j]) == room.players@[j].transport,
                    decreases room.players.len() - k,
                {
                    targets.push(&room.players[k].transport);
                    k += 1;
                }
                assert(targets@.map_values(|t: &T| *t) =~= transports(room@.players));
            },
            None => {
                assert(targets@.map_values(|t: &T| *t) =~= Seq::<T>::empty());
            },
        }
        targets
    }

    /// The channels of everyone in the room but the player with this id.
    pub fn broadcast_except(&self, room_id: &str, except_id: &str) -> (r: Vec<&T>)
        requires
            self.wf(),
        ensures
            r@.map_values(|t: &T| *t) == if self@.rooms.dom().contains(room_id@) {
                transports(others(self@.rooms[room_id@].players, except_id@))
            } else {
                Seq::<T>::empty()
            },
    {
        let mut targets: Vec<&T> = Vec::new();
        match self.room_index(room_id) {
            Some(i) => {
                let room = &self.rooms[i];
                let ghost all = room@.players;
                let ghost keep = |p: PlayerView<T>| p.id != except_id@;
                let mut k: usize = 0;
                proof {
                    reveal(Seq::filter);
                    assert(targets@.map_values(|t: &T| *t) =~= transports(all.take(0).filter(keep)));
                }
                while k < room.players.len()
                    invariant
                        k <= room.players.len(),
                        all == room@.players,
                        keep == |p: PlayerView<T>| p.id != except_id@,
                        targets@.map_values(|t: &T| *t) == transports(
                            all.take(k as int).filter(keep),
                        ),
                    decreases room.players.len() - k,
                {
                    let ghost before = targets@.map_values(|t: &T| *t);
                    proof {
                        reveal(Seq::filter);
                        assert(all.take(k + 1).drop_last() =~= all.take(k as int));
                        assert(all.take(k + 1).last() == room.players@[k as int]@);
                    }
                    if !str_eq(room.players[k].id.as_str(), except_id) {
                        targets.push(&room.players[k].transport);
                        proof {
                            assert(targets@.map_values(|t: &T| *t) =~= before.push(
                                room.players@[k as int].transport,
                            ));
                            assert(transports(all.take(k + 1).filter(keep)) =~= transports(
                                all.take(k as int).filter(keep),
                            ).push(room.players@[k as int].transport));
                        }
                    }
                    k += 1;
                }
                assert(all.take(k as int) =~= all);
            },
            None => {
                assert(targets@.map_values(|t: &T| *t) =~= Seq::<T>::empty());
            },
        }
        targets
    }
}

/// A list that loses no player to the filter is the list itself.
proof fn lemma_same_players<T>(players: Seq<PlayerView<T>>, player_id: Seq<char>)
    requires
        others(players, player_id).len() == players.len(),
    ensures
        others(players, player_id) == players,
    decreases players.len(),
{
    reveal(Seq::filter);
    let keep = |p: PlayerView<T>| p.id != player_id;
    if players.len() > 0 {
        players.drop_last().lemma_filter_len(keep);
        lemma_same_players(players.drop_last(), player_id);
        assert(players.drop_last().push(players.last()) =~= players);
    }
}

} // verus!
