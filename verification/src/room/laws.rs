//! Laws of the rooms: what every reply ends with, and what becomes of two
//! requests for one turn. The table takes one request at a time, so two
//! requests that come together are done one after the other, in either order.

use vstd::prelude::*;

use crate::game::events::roulette_value;
use crate::game::laws::Operation;
use crate::game::rules;
use crate::game::state::{TurnPhase, lemma_xorshift_moves};
use crate::game::turns::lemma_next_turn;
use crate::protocol::messages::ServerMessageView;
use crate::room::manager::{RoomManagerView, action_request, path_request, spin_request};
use crate::room::models::RoomView;
use crate::room::play::{
    action_outcome, choice_messages, game_sync, parse_action, path_outcome, settled, spin_outcome,
};

verus! {

/// Whatever was asked, the messages of a request that was done end with the
/// whole snapshot of the room's game as the request leaves it.
pub proof fn lemma_reply_ends_with_snapshot<T>(
    room: RoomView<T>,
    player_id: Seq<char>,
    path_index: usize,
    action_id: Seq<char>,
)
    requires
        room.game_state is Some,
    ensures
        spin_outcome(room, player_id).0.game_state is Some,
        spin_outcome(room, player_id).1.last() == game_sync(
            spin_outcome(room, player_id).0.game_state->0,
        ),
        path_outcome(room, path_index).0.game_state is Some,
        path_outcome(room, path_index).1.last() == game_sync(
            path_outcome(room, path_index).0.game_state->0,
        ),
        action_outcome(room, action_id).0.game_state is Some,
        action_outcome(room, action_id).1.last() == game_sync(
            action_outcome(room, action_id).0.game_state->0,
        ),
{
}

/// What a spin in a room gives. The value is the one that the standard
/// roulette shows for the seed, from 1 to 10, and the move is the classic
/// engine's. The messages start with the value and with the tile on which the
/// player stands in the snapshot that the room keeps, and end with that
/// snapshot; where the move ended the turn, the message before the last says
/// whose turn it is or that the game is over. A seed other than 0 is not what
/// it was before the spin, and is not 0 after it.
pub proof fn lemma_spin_in_room<T>(room: RoomView<T>, player_id: Seq<char>)
    requires
        room.wf(),
        room.game_state is Some,
    ensures
        ({
            let s = room.game_state->0;
            let value = roulette_value(s.rng_seed);
            let spun = s.after_draw().with_phase(TurnPhase::Moving);
            let moved = room.engine->0.advance_outcome(spun, value).0;
            let (after, msgs) = spin_outcome(room, player_id);
            let stored = after.game_state->0;
            &&& 1 <= value <= 10
            &&& after.wf()
            &&& after.game_state is Some
            &&& stored.players == moved.players
            &&& msgs.len() >= 3
            &&& msgs[0] == (ServerMessageView::RouletteResult { player_id, value })
            &&& msgs[1] == (ServerMessageView::PlayerMoved {
                player_id,
                position: stored.players[s.current_turn].position,
            })
            &&& msgs.last() == game_sync(stored)
            &&& moved.phase == TurnPhase::TurnEnd ==> msgs[msgs.len() - 2] is TurnChanged
                || msgs[msgs.len() - 2] is GameEnded
            &&& s.rng_seed != 0 ==> stored.rng_seed != s.rng_seed && stored.rng_seed != 0
        }),
{
    let s = room.game_state->0;
    let engine = room.engine->0;
    let value = roulette_value(s.rng_seed);
    let spun = s.after_draw().with_phase(TurnPhase::Moving);
    let moved = engine.advance_outcome(spun, value).0;
    engine.lemma_classic_is_lawful();
    engine.lemma_advance_keeps_table(spun, value);
    engine.lemma_seed_only_advances(spun, Operation::Advance { steps: value });
    lemma_next_turn(moved);
    if s.rng_seed != 0 {
        lemma_xorshift_moves(s.rng_seed);
        lemma_xorshift_moves(spun.rng_seed);
    }
}

/// What the choice of an entry in a room gives: what the classic rules say of
/// the choice that the entry's id means, and the end of the turn.
pub proof fn lemma_action_in_room<T>(room: RoomView<T>, action_id: Seq<char>)
    requires
        room.wf(),
        room.game_state is Some,
    ensures
        ({
            let s = room.game_state->0;
            let choice = rules::chosen(s, parse_action(action_id, s));
            &&& action_outcome(room, action_id) == settled(
                room,
                choice.0.with_phase(TurnPhase::TurnEnd),
                choice_messages(choice.1),
            )
            &&& action_outcome(room, action_id).0.game_state is Some
        }),
{
    let s = room.game_state->0;
    room.engine->0.lemma_classic_choice(s, parse_action(action_id, s));
}

/// The player who has the turn in the room's game.
pub open spec fn turn_holder<T>(room: RoomView<T>) -> Seq<char> {
    room.game_state->0.current().id
}

/// A request of a player who does not have the turn is refused for that
/// reason, whatever it asks, and changes nothing.
pub proof fn lemma_not_your_turn<T>(
    m: RoomManagerView<T>,
    room_id: Seq<char>,
    other: Seq<char>,
    path_index: usize,
    action_id: Seq<char>,
)
    requires
        m.rooms.dom().contains(room_id),
        m.rooms[room_id].game_state is Some,
        turn_holder(m.rooms[room_id]) != other,
    ensures
        spin_request(m, room_id, other) == (m, Err::<Seq<ServerMessageView>, _>("not your turn"@)),
        path_request(m, room_id, other, path_index) == (
            m,
            Err::<Seq<ServerMessageView>, _>("not your turn"@),
        ),
        action_request(m, room_id, other, action_id) == (
            m,
            Err::<Seq<ServerMessageView>, _>("not your turn"@),
        ),
{
}

/// Two spins for one turn, one from the player who has it and one from
/// another player: in either order the first player's spin is done, once, and
/// the other's is refused as not their turn. The table and the messages of the
/// spin are the same in both orders. This holds where the turn has not passed
/// to the other player by the end of the first player's spin.
pub proof fn lemma_spins_for_one_turn<T>(
    m: RoomManagerView<T>,
    room_id: Seq<char>,
    mover: Seq<char>,
    other: Seq<char>,
)
    requires
        spin_request(m, room_id, mover).1 is Ok,
        other != mover,
        turn_holder(spin_request(m, room_id, mover).0.rooms[room_id]) != other,
    ensures
        ({
            let other_first = spin_request(m, room_id, other);
            let then_mover = spin_request(other_first.0, room_id, mover);
            let mover_first = spin_request(m, room_id, mover);
            let then_other = spin_request(mover_first.0, room_id, other);
            &&& other_first.1 == Err::<Seq<ServerMessageView>, _>("not your turn"@)
            &&& then_other.1 == Err::<Seq<ServerMessageView>, _>("not your turn"@)
            &&& then_mover.1 is Ok
            &&& then_mover.1 == mover_first.1
            &&& then_mover.0 == mover_first.0
            &&& then_other.0 == mover_first.0
        }),
{
    let after = spin_request(m, room_id, mover).0;
    assert(after.rooms.dom().contains(room_id));
    assert(after.rooms[room_id].game_state is Some);
}

/// Two choices of a way out for one turn: as for two spins.
pub proof fn lemma_paths_for_one_turn<T>(
    m: RoomManagerView<T>,
    room_id: Seq<char>,
    mover: Seq<char>,
    mover_path: usize,
    other: Seq<char>,
    other_path: usize,
)
    requires
        path_request(m, room_id, mover, mover_path).1 is Ok,
        other != mover,
        turn_holder(path_request(m, room_id, mover, mover_path).0.rooms[room_id]) != other,
    ensures
        ({
            let other_first = path_request(m, room_id, other, other_path);
            let then_mover = path_request(other_first.0, room_id, mover, mover_path);
            let mover_first = path_request(m, room_id, mover, mover_path);
            let then_other = path_request(mover_first.0, room_id, other, other_path);
            &&& other_first.1 == Err::<Seq<ServerMessageView>, _>("not your turn"@)
            &&& then_other.1 == Err::<Seq<ServerMessageView>, _>("not your turn"@)
            &&& then_mover.1 is Ok
            &&& then_mover.1 == mover_first.1
            &&& then_mover.0 == mover_first.0
            &&& then_other.0 == mover_first.0
        }),
{
    let after = path_request(m, room_id, mover, mover_path).0;
    assert(after.rooms.dom().contains(room_id));
    assert(after.rooms[room_id].game_state is Some);
}

/// Two choices of an entry for one turn: as for two spins.
pub proof fn lemma_actions_for_one_turn<T>(
    m: RoomManagerView<T>,
    room_id: Seq<char>,
    mover: Seq<char>,
    mover_action: Seq<char>,
    other: Seq<char>,
    other_action: Seq<char>,
)
    requires
        action_request(m, room_id, mover, mover_action).1 is Ok,
        other != mover,
        turn_holder(action_request(m, room_id, mover, mover_action).0.rooms[room_id]) != other,
    ensures
        ({
            let other_first = action_request(m, room_id, other, other_action);
            let then_mover = action_request(other_first.0, room_id, mover, mover_action);
            let mover_first = action_request(m, room_id, mover, mover_action);
            let then_other = action_request(mover_first.0, room_id, other, other_action);
            &&& other_first.1 == Err::<Seq<ServerMessageView>, _>("not your turn"@)
            &&& then_other.1 == Err::<Seq<ServerMessageView>, _>("not your turn"@)
            &&& then_mover.1 is Ok
            &&& then_mover.1 == mover_first.1
            &&& then_mover.0 == mover_first.0
            &&& then_other.0 == mover_first.0
        }),
{
    let after = action_request(m, room_id, mover, mover_action).0;
    assert(after.rooms.dom().contains(room_id));
    assert(after.rooms[room_id].game_state is Some);
}

} // verus!
