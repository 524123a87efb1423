//! One connection, from its first message to its end: what each message that
//! arrives does to the table of rooms, and which messages go out to whom. The
//! caller receives and sends; it holds the table for the length of one call.

use vstd::prelude::*;
use vstd::string::StringExecFns;
use crate::chat::{chat_broadcast, handle_chat};
use crate::game::player::PlayerId;
use crate::protocol::messages::{
    ClientMessage, ClientMessageView, PlayerInfo, PlayerInfoView, RoomId, ServerMessage,
    ServerMessageView,
};
use crate::room::ids::is_room_id;
use crate::room::manager::{
    RoomManager, RoomManagerView, action_request, info_of, join_refusal, joined, leave_refusal,
    left, map_lookup, path_request, reply_view, spin_request, start_refusal, with_room,
};
use crate::room::models::{PlayerView, RoomView};
use crate::room::play::start_messages;
use crate::text::owned;

verus! {

/// Whom a message goes to.
#[derive(Clone, Copy, Debug, PartialEq, Eq, Structural)]
pub enum Audience {
    /// The connection that sent the request, and no other.
    Sender,
    /// Everyone who is in the connection's room once the request is done.
    Room,
}

/// A message to send, and to whom.
#[derive(Debug)]
pub struct Outbound {
    pub audience: Audience,
    pub message: ServerMessage,
}

/// The model of a message to send.
pub struct OutboundView {
    pub audience: Audience,
    pub message: ServerMessageView,
}

impl View for Outbound {
    type V = OutboundView;

    open spec fn view(&self) -> OutboundView {
        OutboundView { audience: self.audience, message: self.message@ }
    }
}

impl DeepView for Outbound {
    type V = OutboundView;

    open spec fn deep_view(&self) -> OutboundView {
        self@
    }
}

impl Clone for Outbound {
    fn clone(&self) -> (r: Self)
        ensures
            r@ == self@,
    {
        Outbound { audience: self.audience, message: self.message.clone() }
    }
}

/// A connection that has entered a room: the room, and who the player is.
#[derive(Debug)]
pub struct Session {
    pub room_id: RoomId,
    pub player_id: PlayerId,
    pub player_name: String,
}

/// The model of a session.
pub struct SessionView {
    pub room_id: Seq<char>,
    pub player_id: Seq<char>,
    pub player_name: Seq<char>,
}

impl View for Session {
    type V = SessionView;

    open spec fn view(&self) -> SessionView {
        SessionView {
            room_id: self.room_id@,
            player_id: self.player_id@,
            player_name: self.player_name@,
        }
    }
}

impl DeepView for Session {
    type V = SessionView;

    open spec fn deep_view(&self) -> SessionView {
        self@
    }
}

impl Clone for Session {
    fn clone(&self) -> (r: Self)
        ensures
            r@ == self@,
    {
        Session {
            room_id: self.room_id.clone(),
            player_id: self.player_id.clone(),
            player_name: self.player_name.clone(),
        }
    }
}

/// A message for the sender alone.
pub open spec fn to_sender(message: ServerMessageView) -> OutboundView {
    OutboundView { audience: Audience::Sender, message }
}

/// A message for the room.
pub open spec fn to_room(message: ServerMessageView) -> OutboundView {
    OutboundView { audience: Audience::Room, message }
}

/// Messages for the room, in order.
pub open spec fn all_to_room(messages: Seq<ServerMessageView>) -> Seq<OutboundView> {
    messages.map_values(|m: ServerMessageView| to_room(m))
}

/// The error that the sender is told.
pub open spec fn error(code: Seq<char>, message: Seq<char>) -> OutboundView {
    to_sender(ServerMessageView::Error { code, message })
}

/// What the host of a new room is told: the room, and the room's state with
/// the host as its only player.
pub open spec fn created_messages(s: SessionView) -> Seq<OutboundView> {
    seq![
        to_sender(
            ServerMessageView::RoomCreated {
                room_id: s.room_id,
                invite_url: "/room/"@ + s.room_id,
                player_id: s.player_id,
            },
        ),
        to_sender(
            ServerMessageView::RoomState {
                room_id: s.room_id,
                player_id: s.player_id,
                players: seq![PlayerInfoView { id: s.player_id, name: s.player_name }],
                status: "Lobby"@,
            },
        ),
    ]
}

/// What a join gives: the room learns of the player, and the player learns the
/// state of the room.
pub open spec fn joined_messages<T>(s: SessionView, room: RoomView<T>) -> Seq<OutboundView> {
    seq![
        to_room(
            ServerMessageView::PlayerJoined { player_id: s.player_id, player_name: s.player_name },
        ),
        to_sender(
            ServerMessageView::RoomState {
                room_id: s.room_id,
                player_id: s.player_id,
                players: info_of(room).players,
                status: info_of(room).status,
            },
        ),
    ]
}

/// What the first message of a connection does. A connection enters a room by
/// creating it or by joining it; anything else ends it, with an error if a
/// message came at all.
pub open spec fn opened<T>(
    before: RoomManagerView<T>,
    first: Option<ClientMessageView>,
    transport: T,
    after: RoomManagerView<T>,
    session: Option<SessionView>,
    out: Seq<OutboundView>,
) -> bool {
    match first {
        Some(ClientMessageView::CreateRoom { player_name, map_id }) => {
            &&& session matches Some(s)
            &&& s.player_name == player_name
            &&& is_room_id(s.room_id)
            &&& after == with_room(
                before,
                s.room_id,
                RoomView::opened(
                    s.room_id,
                    s.player_id,
                    player_name,
                    map_id,
                    transport,
                    before.max_players_per_room,
                ),
            )
            &&& out == created_messages(s)
        },
        Some(ClientMessageView::JoinRoom { room_id, player_name }) => match join_refusal(
            before,
            room_id,
        ) {
            Some(e) => after == before && session is None && out == seq![
                error("JOIN_FAILED"@, e),
            ],
            None => {
                &&& session matches Some(s)
                &&& s.room_id == room_id
                &&& s.player_name == player_name
                &&& after == joined(
                    before,
                    room_id,
                    PlayerView { id: s.player_id, name: player_name, transport },
                )
                &&& out == joined_messages(s, after.rooms[room_id])
            },
        },
        Some(_) => after == before && session is None && out == seq![
            error("INVALID_FIRST_MESSAGE"@, "Expected CreateRoom or JoinRoom"@),
        ],
        None => after == before && session is None && out == Seq::<OutboundView>::empty(),
    }
}

/// The player leaves: the table is without them, if they were in the room, and
/// those who remain are told.
pub open spec fn departed<T>(
    before: RoomManagerView<T>,
    s: SessionView,
    after: RoomManagerView<T>,
    open: bool,
    out: Seq<OutboundView>,
) -> bool {
    &&& after == if leave_refusal(before, s.room_id, s.player_id) is None {
        left(before, s.room_id, s.player_id)
    } else {
        before
    }
    &&& !open
    &&& out == seq![to_room(ServerMessageView::PlayerLeft { player_id: s.player_id })]
}

/// The reply to a request to play: done, the room hears what happened;
/// refused, the sender is told why.
pub open spec fn play_replies(reply: Result<Seq<ServerMessageView>, Seq<char>>) -> Seq<OutboundView> {
    match reply {
        Ok(msgs) => all_to_room(msgs),
        Err(e) => seq![error("GAME_ERROR"@, e)],
    }
}

/// A request to play leaves the connection open, the table as the request
/// leaves it, and gives the reply to the request.
pub open spec fn played<T>(
    request: (RoomManagerView<T>, Result<Seq<ServerMessageView>, Seq<char>>),
    after: RoomManagerView<T>,
    open: bool,
    out: Seq<OutboundView>,
) -> bool {
    &&& open
    &&& after == request.0
    &&& out == play_replies(request.1)
}

/// What a later message of a connection does, or the end of the connection
/// where no message came.
pub open spec fn handled<T>(
    before: RoomManagerView<T>,
    s: SessionView,
    msg: Option<ClientMessageView>,
    after: RoomManagerView<T>,
    open: bool,
    out: Seq<OutboundView>,
) -> bool {
    match msg {
        Some(ClientMessageView::ChatMessage { text }) => after == before && open && out == seq![
            to_room(chat_broadcast(s.player_id, s.player_name, text)),
        ],
        Some(ClientMessageView::LeaveRoom) => departed(before, s, after, open, out),
        None => departed(before, s, after, open, out),
        Some(ClientMessageView::StartGame) => {
            &&& open
            &&& match start_refusal(before, s.room_id, s.player_id) {
                Some(e) => after == before && out == seq![error("GAME_ERROR"@, e)],
                None => {
                    let room = before.rooms[s.room_id];
                    let started = after.rooms[s.room_id];
                    &&& started.engine is Some
                    &&& started.engine->0.classic()
                    &&& started == room.started(
                        map_lookup(before.maps, room.map_id)->Ok_0,
                        started.engine->0,
                    )
                    &&& after == with_room(before, s.room_id, started)
                    &&& out == all_to_room(start_messages(started.game_state->0))
                },
            }
        },
        Some(ClientMessageView::SpinRoulette) => played(
            spin_request(before, s.room_id, s.player_id),
            after,
            open,
            out,
        ),
        Some(ClientMessageView::ChoicePath { path_index }) => played(
            path_request(before, s.room_id, s.player_id, path_index),
            after,
            open,
            out,
        ),
        Some(ClientMessageView::ChoiceAction { action_id }) => played(
            action_request(before, s.room_id, s.player_id, action_id),
            after,
            open,
            out,
        ),
        Some(_) => after == before && open && out == seq![
            error("UNKNOWN_MESSAGE"@, "Unrecognized message type"@),
        ],
    }
}

fn one(outbound: Outbound) -> (r: Vec<Outbound>)
    ensures
        r.deep_view() == seq![outbound@],
{
    let mut out: Vec<Outbound> = Vec::new();
    out.push(outbound);
    assert(out.deep_view() =~= seq![outbound@]);
    out
}

fn error_reply(code: &str, message: String) -> (r: Vec<Outbound>)
    ensures
        r.deep_view() == seq![error(code@, message@)],
{
    one(
        Outbound {
            audience: Audience::Sender,
            message: ServerMessage::Error { code: owned(code), message },
        },
    )
}

fn room_replies(messages: Vec<ServerMessage>) -> (r: Vec<Outbound>)
    ensures
        r.deep_view() == all_to_room(messages.deep_view()),
{
    let mut messages = messages;
    let ghost all = messages.deep_view();
    let mut out: Vec<Outbound> = Vec::new();
    assert(out.deep_view() =~= all_to_room(all.take(0)));
    assert(messages.deep_view() =~= all.skip(0));
    while messages.len() > 0
        invariant
            out@.len() + messages@.len() == all.len(),
            out.deep_view() == all_to_room(all.take(out@.len() as int)),
            messages.deep_view() == all.skip(out@.len() as int),
        decreases messages@.len(),
    {
        let ghost done = out@.len() as int;
        let ghost rest = messages.deep_view();
        let message = messages.remove(0);
        assert(message@ == rest[0]);
        assert(messages.deep_view() =~= rest.skip(1));
        assert(rest.skip(1) =~= all.skip(done + 1));
        let ghost before = out.deep_view();
        out.push(Outbound { audience: Audience::Room, message });
        assert(out.deep_view() =~= before.push(to_room(all[done])));
        assert(out.deep_view() =~= all_to_room(all.take(done + 1)));
    }
    assert(all.take(out@.len() as int) =~= all);
    out
}

/// The reply to a request to play.
fn play_reply(result: Result<Vec<ServerMessage>, String>) -> (r: Vec<Outbound>)
    ensures
        r.deep_view() == play_replies(reply_view(result)),
{
    match result {
        Ok(msgs) => room_replies(msgs),
        Err(e) => error_reply("GAME_ERROR", e),
    }
}

impl Session {
    /// Takes the first message of a connection, on which `transport` reaches
    /// the player. `None` stands for a connection that ended before a message
    /// came. A session is returned if the connection has entered a room;
    /// otherwise the connection is to be closed once the messages are sent.
    pub fn open<T>(manager: &mut RoomManager<T>, first: Option<ClientMessage>, transport: T) -> (r:
        (Option<Session>, Vec<Outbound>))
        requires
            old(manager).wf(),
        ensures
            final(manager).wf(),
            opened(
                old(manager)@,
                first.deep_view(),
                transport,
                final(manager)@,
                r.0.deep_view(),
                r.1.deep_view(),
            ),
    {
        match first {
            Some(ClientMessage::CreateRoom { player_name, map_id }) => {
                let (room_id, player_id) = manager.create_room(
                    player_name.clone(),
                    map_id,
                    transport,
                );
                let mut invite_url = owned("/room/");
                invite_url.append(room_id.as_str());
                let created = ServerMessage::RoomCreated {
                    room_id: room_id.clone(),
                    invite_url,
                    player_id: player_id.clone(),
                };
                let mut players: Vec<PlayerInfo> = Vec::new();
                players.push(PlayerInfo { id: player_id.clone(), name: player_name.clone() });
                let state = ServerMessage::RoomState {
                    room_id: room_id.clone(),
                    player_id: player_id.clone(),
                    players,
                    status: owned("Lobby"),
                };
                let mut out = one(Outbound { audience: Audience::Sender, message: created });
                let ghost head = out.deep_view();
                let second = Outbound { audience: Audience::Sender, message: state };
                out.push(second);
                let session = Session { room_id, player_id, player_name };
                proof {
                    assert(players.deep_view() =~= seq![
                        PlayerInfoView { id: player_id@, name: player_name@ },
                    ]);
                    assert(out.deep_view() =~= head.push(second@));
                    assert(out.deep_view() =~= created_messages(session@));
                }
                (Some(session), out)
            },
            Some(ClientMessage::JoinRoom { room_id, player_name }) => {
                match manager.join_room(room_id.as_str(), player_name.clone(), transport) {
                    Ok(player_id) => {
                        let joined = ServerMessage::PlayerJoined {
                            player_id: player_id.clone(),
                            player_name: player_name.clone(),
                        };
                        let mut out = one(Outbound { audience: Audience::Room, message: joined });
                        let ghost head = out.deep_view();
                        match manager.get_room_info(room_id.as_str()) {
                            Some(info) => {
                                let state = ServerMessage::RoomState {
                                    room_id: room_id.clone(),
                                    player_id: player_id.clone(),
                                    players: info.players,
                                    status: info.status,
                                };
                                let second = Outbound { audience: Audience::Sender, message: state };
                                out.push(second);
                                assert(out.deep_view() =~= head.push(second@));
                            },
                            None => {
                                assert(manager@.rooms.dom().contains(room_id@));
                            },
                        }
                        let session = Session { room_id, player_id, player_name };
                        assert(out.deep_view() =~= joined_messages(session@, manager@.rooms[room_id@]));
                        (Some(session), out)
                    },
                    Err(e) => (None, error_reply("JOIN_FAILED", e)),
                }
            },
            Some(_) => (
                None,
                error_reply("INVALID_FIRST_MESSAGE", owned("Expected CreateRoom or JoinRoom")),
            ),
            None => {
                let out: Vec<Outbound> = Vec::new();
                assert(out.deep_view() =~= Seq::<OutboundView>::empty());
                (None, out)
            },
        }
    }

    /// The player leaves the room, and those who remain are told.
    fn depart<T>(&self, manager: &mut RoomManager<T>) -> (r: (bool, Vec<Outbound>))
        requires
            old(manager).wf(),
        ensures
            final(manager).wf(),
            departed(old(manager)@, self@, final(manager)@, r.0, r.1.deep_view()),
    {
        let _ = manager.leave_room(self.room_id.as_str(), self.player_id.as_str());
        let gone = ServerMessage::PlayerLeft { player_id: self.player_id.clone() };
        (false, one(Outbound { audience: Audience::Room, message: gone }))
    }

    /// Takes a later message of the connection; `None` stands for a connection
    /// that has ended. Returns whether the connection stays open, and the
    /// messages to send.
    pub fn handle<T>(&self, manager: &mut RoomManager<T>, msg: Option<ClientMessage>) -> (r: (
        bool,
        Vec<Outbound>,
    ))
        requires
            old(manager).wf(),
        ensures
            final(manager).wf(),
            handled(old(manager)@, self@, msg.deep_view(), final(manager)@, r.0, r.1.deep_view()),
    {
        let room_id = self.room_id.as_str();
        let player_id = self.player_id.as_str();
        match msg {
            Some(ClientMessage::ChatMessage { text }) => {
                let line = handle_chat(player_id, self.player_name.as_str(), text);
                (true, one(Outbound { audience: Audience::Room, message: line }))
            },
            Some(ClientMessage::LeaveRoom) => self.depart(manager),
            None => self.depart(manager),
            Some(ClientMessage::StartGame) => {
                let result = manager.start_game(room_id, player_id);
                (true, play_reply(result))
            },
            Some(ClientMessage::SpinRoulette) => {
                let result = manager.spin_roulette(room_id, player_id);
                (true, play_reply(result))
            },
            Some(ClientMessage::ChoicePath { path_index }) => {
                let result = manager.choose_path(room_id, player_id, path_index);
                (true, play_reply(result))
            },
            Some(ClientMessage::ChoiceAction { action_id }) => {
                let result = manager.choose_action(room_id, player_id, action_id);
                (true, play_reply(result))
            },
            Some(_) => (true, error_reply("UNKNOWN_MESSAGE", owned("Unrecognized message type"))),
        }
    }
}

} // verus!
