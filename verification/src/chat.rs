//! Chat between the players of a room.

use vstd::prelude::*;
use crate::protocol::messages::{ServerMessage, ServerMessageView};
use crate::text::owned;

verus! {

/// The message that carries a player's line to the room.
pub open spec fn chat_broadcast(
    player_id: Seq<char>,
    player_name: Seq<char>,
    text: Seq<char>,
) -> ServerMessageView {
    ServerMessageView::ChatBroadcast { player_id, player_name, text }
}

/// Makes of a player's line the message that goes to everyone in the room.
pub fn handle_chat(player_id: &str, player_name: &str, text: String) -> (r: ServerMessage)
    ensures
        r@ == chat_broadcast(player_id@, player_name@, text@),
{
    ServerMessage::ChatBroadcast {
        player_id: owned(player_id),
        player_name: owned(player_name),
        text,
    }
}

} // verus!
