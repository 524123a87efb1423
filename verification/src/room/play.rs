//! A game in a room: which requests to play are legal, what they do to the
//! room and which messages they give. Every request that changes the game ends
//! with the whole snapshot, so that a client can take up from it alone.

use vstd::prelude::*;
use crate::game::turns::{choose_path_outcome, end_turn_outcome, lemma_next_turn};
use crate::game::map::{MapData, TileType, clone_careers, clone_houses};
use crate::game::player::{PlayerId, PlayerStateView};
use crate::game::ranking::rankings_outcome;
use crate::game::state::{
    GameChoice, GameChoiceView, GameEvent, GameEventView, GameState, GameStateView, InsuranceType,
    PlayerAction, PlayerActionView, Ranking, RankingView, TurnPhase, clone_players,
};
use crate::game::traits::GameEngine;
use crate::protocol::messages::{
    Choice, ChoiceView, RankingEntry, RankingEntryView, ServerMessage, ServerMessageView,
};
use crate::room::manager::RoomManager;
use crate::room::models::{Room, RoomStatus, RoomView};
use crate::text::{owned, str_eq};

verus! {

/// The message that carries the whole snapshot.
pub open spec fn game_sync(s: GameStateView) -> ServerMessageView {
    ServerMessageView::GameSync { players: s.players, current_turn: s.current_turn, phase: s.phase }
}

/// An entry of a choice as it is sent.
pub open spec fn as_choice(c: GameChoiceView) -> ChoiceView {
    ChoiceView { id: c.id, label: c.label }
}

/// The message that puts a choice to the players.
pub open spec fn choice_message(choices: Seq<GameChoiceView>) -> ServerMessageView {
    ServerMessageView::ChoiceRequired { choices: choices.map_values(|c: GameChoiceView| as_choice(c)) }
}

/// One message for each event that asks for a choice, in order.
pub open spec fn choice_messages(events: Seq<GameEventView>) -> Seq<ServerMessageView>
    decreases events.len(),
{
    if events.len() == 0 {
        Seq::empty()
    } else {
        let earlier = choice_messages(events.drop_last());
        match events.last() {
            GameEventView::ChoiceRequired { choices } => earlier.push(choice_message(choices)),
            _ => earlier,
        }
    }
}

/// An entry of the ranking as it is sent.
pub open spec fn as_ranking_entry(r: RankingView) -> RankingEntryView {
    RankingEntryView {
        player_id: r.player_id,
        player_name: r.player_name,
        total_assets: r.total_assets,
        rank: r.rank,
    }
}

/// The message that ends a game.
pub open spec fn game_ended(s: GameStateView) -> ServerMessageView {
    ServerMessageView::GameEnded {
        rankings: rankings_outcome(s).map_values(|r: RankingView| as_ranking_entry(r)),
    }
}

/// The two messages that start a game.
pub open spec fn start_messages(s: GameStateView) -> Seq<ServerMessageView> {
    seq![
        ServerMessageView::GameStarted {
            turn_order: s.players.map_values(|p: PlayerStateView| p.id),
            board: s.board,
            players: s.players,
            careers: s.careers,
            houses: s.houses_for_sale,
        },
        game_sync(s),
    ]
}

/// The step after a turn has ended. Where every player has retired the room
/// is finished and the ranking goes out; otherwise the turn is handed on and
/// the next player is named.
pub open spec fn turn_advanced<T>(room: RoomView<T>) -> (RoomView<T>, Seq<ServerMessageView>) {
    let s = room.game_state->0;
    if s.finished() {
        (RoomView { status: RoomStatus::Finished, ..room }, seq![game_ended(s)])
    } else {
        let next = end_turn_outcome(s);
        (
            RoomView { game_state: Some(next), ..room },
            seq![
                ServerMessageView::TurnChanged {
                    current_turn: next.current_turn,
                    player_id: next.current().id,
                },
            ],
        )
    }
}

/// The room takes the snapshot `s` that the engine returned. If the turn has
/// ended the step after a turn follows. The messages are those of the request,
/// those of that step, and the whole snapshot.
pub open spec fn settled<T>(room: RoomView<T>, s: GameStateView, msgs: Seq<ServerMessageView>) -> (
    RoomView<T>,
    Seq<ServerMessageView>,
) {
    let stored = RoomView { game_state: Some(s), ..room };
    let (after, more) = if s.phase == TurnPhase::TurnEnd {
        turn_advanced(stored)
    } else {
        (stored, Seq::empty())
    };
    (after, msgs + more + seq![game_sync(after.game_state->0)])
}

/// What a request is told that comes in the wrong phase.
pub open spec fn wrong_phase(phase: TurnPhase) -> Seq<char> {
    match phase {
        TurnPhase::WaitingForSpin => "not in spin phase"@,
        TurnPhase::ChoosingPath => "not in path choice phase"@,
        _ => "not in action choice phase"@,
    }
}

/// Why a request to play that needs the phase `phase` is refused in this
/// room, if it is: no game, another player's turn, or another phase.
pub open spec fn play_refusal<T>(room: RoomView<T>, player_id: Seq<char>, phase: TurnPhase) -> Option<
    Seq<char>,
> {
    match room.game_state {
        None => Some("game not started"@),
        Some(s) => if s.current().id != player_id {
            Some("not your turn"@)
        } else if s.phase != phase {
            Some(wrong_phase(phase))
        } else {
            None
        },
    }
}

/// What a spin does in a room: the engine spins and moves the player by the
/// value shown.
pub open spec fn spin_outcome<T>(room: RoomView<T>, player_id: Seq<char>) -> (
    RoomView<T>,
    Seq<ServerMessageView>,
) {
    let engine = room.engine->0;
    let (spun, result) = engine.spin_outcome(room.game_state->0);
    let (moved, events) = engine.advance_outcome(spun, result.value);
    settled(
        room,
        moved,
        seq![
            ServerMessageView::RouletteResult { player_id, value: result.value },
            ServerMessageView::PlayerMoved { player_id, position: moved.current().position },
        ] + choice_messages(events),
    )
}

/// What the choice of a way out does in a room.
pub open spec fn path_outcome<T>(room: RoomView<T>, path_index: usize) -> (
    RoomView<T>,
    Seq<ServerMessageView>,
) {
    settled(room, choose_path_outcome(room.game_state->0, path_index), Seq::empty())
}

/// The kind of the tile on which the player who has the turn stands.
pub open spec fn standing_on(s: GameStateView) -> Option<TileType> {
    match s.board.tile(s.current().position) {
        Some(tile) => Some(tile.tile_type),
        None => None,
    }
}

/// What the id of a chosen entry means, by the tile on which the choice was
/// offered. An id that means nothing there is a pass.
pub open spec fn parse_action(action_id: Seq<char>, s: GameStateView) -> PlayerActionView {
    match standing_on(s) {
        Some(TileType::House) => if action_id == "skip"@ {
            PlayerActionView::SkipAction
        } else {
            PlayerActionView::BuyHouse { house_id: action_id }
        },
        Some(TileType::Insurance) => if action_id == "life"@ {
            PlayerActionView::BuyInsurance { insurance_type: InsuranceType::Life }
        } else if action_id == "auto"@ {
            PlayerActionView::BuyInsurance { insurance_type: InsuranceType::Auto }
        } else {
            PlayerActionView::SkipAction
        },
        Some(TileType::Lawsuit) => PlayerActionView::SelectLawsuitTarget { target_id: action_id },
        _ => PlayerActionView::SkipAction,
    }
}

/// What the choice of an entry does in a room.
pub open spec fn action_outcome<T>(room: RoomView<T>, action_id: Seq<char>) -> (
    RoomView<T>,
    Seq<ServerMessageView>,
) {
    let s = room.game_state->0;
    let (after, events) = room.engine->0.action_outcome(s, parse_action(action_id, s));
    settled(room, after, choice_messages(events))
}

fn to_choices(choices: &Vec<GameChoice>) -> (r: Vec<Choice>)
    ensures
        r.deep_view() == choices.deep_view().map_values(|c: GameChoiceView| as_choice(c)),
{
    let mut out: Vec<Choice> = Vec::new();
    let mut i: usize = 0;
    while i < choices.len()
        invariant
            i <= choices.len(),
            out@.len() == i,
            forall|j: int| 0 <= j < i ==> (#[trigger] out@[j])@ == as_choice(choices@[j]@),
        decreases choices.len() - i,
    {
        out.push(Choice { id: choices[i].id.clone(), label: choices[i].label.clone() });
        i += 1;
    }
    assert(out.deep_view() =~= choices.deep_view().map_values(|c: GameChoiceView| as_choice(c)));
    out
}

/// Appends one message for each event that asks for a choice.
fn push_choice_messages(msgs: &mut Vec<ServerMessage>, events: &Vec<GameEvent>)
    ensures
        final(msgs).deep_view() == old(msgs).deep_view() + choice_messages(events.deep_view()),
{
    let ghost start = msgs.deep_view();
    let ghost all = events.deep_view();
    let mut i: usize = 0;
    assert(msgs.deep_view() =~= start + choice_messages(all.take(0)));
    while i < events.len()
        invariant
            i <= events.len(),
            all == events.deep_view(),
            msgs.deep_view() == start + choice_messages(all.take(i as int)),
        decreases events.len() - i,
    {
        let ghost before = msgs.deep_view();
        proof {
            assert(all.take(i + 1).drop_last() =~= all.take(i as int));
            assert(all.take(i + 1).last() == events@[i as int]@);
        }
        match &events[i] {
            GameEvent::ChoiceRequired { choices } => {
                let message = ServerMessage::ChoiceRequired { choices: to_choices(choices) };
                msgs.push(message);
                assert(msgs.deep_view() =~= before.push(message@));
                assert(msgs.deep_view() =~= start + choice_messages(all.take(i + 1)));
            },
            _ => {},
        }
        i += 1;
    }
    assert(all.take(i as int) =~= all);
}

fn to_ranking_entries(rankings: &Vec<Ranking>) -> (r: Vec<RankingEntry>)
    ensures
        r.deep_view() == rankings.deep_view().map_values(|r: RankingView| as_ranking_entry(r)),
{
    let mut out: Vec<RankingEntry> = Vec::new();
    let mut i: usize = 0;
    while i < rankings.len()
        invariant
            i <= rankings.len(),
            out@.len() == i,
            forall|j: int| 0 <= j < i ==> (#[trigger] out@[j])@ == as_ranking_entry(rankings@[j]@),
        decreases rankings.len() - i,
    {
        let r = &rankings[i];
        out.push(
            RankingEntry {
                player_id: r.player_id.clone(),
                player_name: r.player_name.clone(),
                total_assets: r.total_assets,
                rank: r.rank,
            },
        );
        i += 1;
    }
    assert(out.deep_view() =~= rankings.deep_view().map_values(
        |r: RankingView| as_ranking_entry(r),
    ));
    out
}

fn turn_order(state: &GameState) -> (r: Vec<PlayerId>)
    ensures
        r.deep_view() == state@.players.map_values(|p: PlayerStateView| p.id),
{
    let mut order: Vec<PlayerId> = Vec::new();
    let mut i: usize = 0;
    while i < state.players.len()
        invariant
            i <= state.players.len(),
            order@.len() == i,
            forall|j: int| 0 <= j < i ==> (#[trigger] order@[j])@ == state.players@[j].id@,
        decreases state.players.len() - i,
    {
        order.push(state.players[i].id.clone());
        i += 1;
    }
    assert(order.deep_view() =~= state@.players.map_values(|p: PlayerStateView| p.id));
    order
}

/// The message that carries the whole snapshot.
fn sync_message(state: &GameState) -> (r: ServerMessage)
    ensures
        r@ == game_sync(state@),
{
    ServerMessage::GameSync {
        players: clone_players(&state.players),
        current_turn: state.current_turn,
        phase: state.phase,
    }
}

impl<T> RoomManager<T> {
    /// The message that carries the whole snapshot of the room's game.
    pub(crate) fn build_game_sync(room: &Room<T>) -> (r: ServerMessage)
        requires
            room@.game_state is Some,
        ensures
            r@ == game_sync(room@.game_state->0),
    {
        sync_message(room.game_state.as_ref().unwrap())
    }

    /// What the id of a chosen entry means.
    pub(crate) fn parse_action(action_id: &str, state: &GameState) -> (r: PlayerAction)
        requires
            state@.wf(),
        ensures
            r@ == parse_action(action_id@, state@),
    {
        let current_pos: usize = state.players[state.current_turn].position;
        match state.board.tile(current_pos) {
            Some(tile) => match tile.tile_type {
                TileType::House => {
                    if str_eq(action_id, "skip") {
                        PlayerAction::SkipAction
                    } else {
                        PlayerAction::BuyHouse { house_id: owned(action_id) }
                    }
                },
                TileType::Insurance => {
                    if str_eq(action_id, "life") {
                        PlayerAction::BuyInsurance { insurance_type: InsuranceType::Life }
                    } else if str_eq(action_id, "auto") {
                        PlayerAction::BuyInsurance { insurance_type: InsuranceType::Auto }
                    } else {
                        PlayerAction::SkipAction
                    }
                },
                TileType::Lawsuit => PlayerAction::SelectLawsuitTarget {
                    target_id: owned(action_id),
                },
                _ => PlayerAction::SkipAction,
            },
            None => PlayerAction::SkipAction,
        }
    }

    /// The step after a turn has ended.
    pub(crate) fn advance_turn(room: &mut Room<T>, msgs: &mut Vec<ServerMessage>)
        requires
            old(room)@.wf(),
            old(room)@.game_state is Some,
        ensures
            final(room)@.wf(),
            final(room)@ == turn_advanced(old(room)@).0,
            final(msgs).deep_view() == old(msgs).deep_view() + turn_advanced(old(room)@).1,
    {
        let ghost before = msgs.deep_view();
        let engine = room.engine.as_ref().unwrap();
        let state = room.game_state.as_ref().unwrap();
        if engine.is_finished(state) {
            let rankings = engine.rankings(state);
            let message = ServerMessage::GameEnded { rankings: to_ranking_entries(&rankings) };
            room.status = RoomStatus::Finished;
            msgs.push(message);
            assert(msgs.deep_view() =~= before + seq![message@]);
            return ;
        }
        proof {
            lemma_next_turn(state@);
        }
        let new_state = engine.end_turn(state);
        let next_player_id = new_state.players[new_state.current_turn].id.clone();
        let current_turn: usize = new_state.current_turn;
        room.game_state = Some(new_state);
        let message = ServerMessage::TurnChanged { current_turn, player_id: next_player_id };
        msgs.push(message);
        assert(msgs.deep_view() =~= before + seq![message@]);
    }

    /// The room takes the snapshot that the engine returned, and the messages
    /// are completed.
    fn settle(room: &mut Room<T>, state: GameState, msgs: &mut Vec<ServerMessage>)
        requires
            old(room)@.wf(),
            old(room)@.game_state is Some,
            state@.wf(),
        ensures
            final(room)@.wf(),
            final(room)@ == settled(old(room)@, state@, old(msgs).deep_view()).0,
            final(msgs).deep_view() == settled(old(room)@, state@, old(msgs).deep_view()).1,
    {
        let ghost before = msgs.deep_view();
        let ended: bool = match state.phase {
            TurnPhase::TurnEnd => true,
            _ => false,
        };
        room.game_state = Some(state);
        if ended {
            Self::advance_turn(room, msgs);
        } else {
            assert(msgs.deep_view() =~= before + Seq::<ServerMessageView>::empty());
        }
        let ghost middle = msgs.deep_view();
        let sync = Self::build_game_sync(room);
        msgs.push(sync);
        assert(msgs.deep_view() =~= middle + seq![sync@]);
    }

    /// Tells whether a request to play is legal in the room.
    fn check_turn(room: &Room<T>, player_id: &str, phase: TurnPhase) -> (r: Result<(), String>)
        requires
            room@.wf(),
        ensures
            match r {
                Ok(_) => play_refusal(room@, player_id@, phase) is None,
                Err(e) => play_refusal(room@, player_id@, phase) == Some(e@),
            },
    {
        if room.engine.is_none() {
            return Err(owned("game not started"));
        }
        let state = match &room.game_state {
            Some(state) => state,
            None => {
                return Err(owned("no game state"));
            },
        };
        if !str_eq(state.players[state.current_turn].id.as_str(), player_id) {
            return Err(owned("not your turn"));
        }
        if state.phase != phase {
            return Err(
                match phase {
                    TurnPhase::WaitingForSpin => owned("not in spin phase"),
                    TurnPhase::ChoosingPath => owned("not in path choice phase"),
                    _ => owned("not in action choice phase"),
                },
            );
        }
        Ok(())
    }

    /// Starts the game of a room on `map`.
    pub(crate) fn start_in(room: &mut Room<T>, map: MapData) -> (r: Result<
        Vec<ServerMessage>,
        String,
    >)
        requires
            old(room)@.wf(),
        ensures
            final(room)@.wf(),
            final(room)@.id == old(room)@.id,
            match r {
                Ok(msgs) => old(room)@.start_refusal() is None && final(room)@.engine is Some
                    && final(room)@.engine->0.classic() && final(room)@ == old(room)@.started(
                    map@,
                    final(room)@.engine->0,
                ) && msgs.deep_view() == start_messages(final(room)@.game_state->0),
                Err(e) => old(room)@.start_refusal() == Some(e@) && final(room)@ == old(room)@,
            },
    {
        match room.start_game(map) {
            Ok(_) => {},
            Err(e) => {
                return Err(e);
            },
        }
        let game_state = room.game_state.as_ref().unwrap();
        let started = ServerMessage::GameStarted {
            turn_order: turn_order(game_state),
            board: game_state.board.clone(),
            players: clone_players(&game_state.players),
            careers: clone_careers(&game_state.careers),
            houses: clone_houses(&game_state.houses_for_sale),
        };
        let mut msgs: Vec<ServerMessage> = Vec::new();
        msgs.push(started);
        let sync = sync_message(game_state);
        msgs.push(sync);
        assert(msgs.deep_view() =~= start_messages(game_state@));
        Ok(msgs)
    }

    /// Spins and moves for the player who has the turn.
    pub(crate) fn spin_in(room: &mut Room<T>, player_id: &str) -> (r: Result<
        Vec<ServerMessage>,
        String,
    >)
        requires
            old(room)@.wf(),
        ensures
            final(room)@.wf(),
            final(room)@.id == old(room)@.id,
            match r {
                Ok(msgs) => play_refusal(old(room)@, player_id@, TurnPhase::WaitingForSpin) is None
                    && final(room)@ == spin_outcome(old(room)@, player_id@).0 && msgs.deep_view()
                    == spin_outcome(old(room)@, player_id@).1,
                Err(e) => play_refusal(old(room)@, player_id@, TurnPhase::WaitingForSpin) == Some(
                    e@,
                ) && final(room)@ == old(room)@,
            },
    {
        match Self::check_turn(room, player_id, TurnPhase::WaitingForSpin) {
            Ok(_) => {},
            Err(e) => {
                return Err(e);
            },
        }
        let engine = room.engine.as_ref().unwrap();
        let state = room.game_state.as_ref().unwrap();
        let (new_state, spin_result) = engine.spin(state);
        let value: u32 = spin_result.value;
        let (moved_state, events) = engine.advance(&new_state, value);
        let final_position: usize = moved_state.players[moved_state.current_turn].position;
        let mut msgs: Vec<ServerMessage> = Vec::new();
        let first = ServerMessage::RouletteResult { player_id: owned(player_id), value };
        let second = ServerMessage::PlayerMoved {
            player_id: owned(player_id),
            position: final_position,
        };
        msgs.push(first);
        msgs.push(second);
        assert(msgs.deep_view() =~= seq![first@, second@]);
        push_choice_messages(&mut msgs, &events);
        Self::settle(room, moved_state, &mut msgs);
        Ok(msgs)
    }

    /// Takes the way out that the player who has the turn chose.
    pub(crate) fn path_in(room: &mut Room<T>, player_id: &str, path_index: usize) -> (r: Result<
        Vec<ServerMessage>,
        String,
    >)
        requires
            old(room)@.wf(),
        ensures
            final(room)@.wf(),
            final(room)@.id == old(room)@.id,
            match r {
                Ok(msgs) => play_refusal(old(room)@, player_id@, TurnPhase::ChoosingPath) is None
                    && final(room)@ == path_outcome(old(room)@, path_index).0 && msgs.deep_view()
                    == path_outcome(old(room)@, path_index).1,
                Err(e) => play_refusal(old(room)@, player_id@, TurnPhase::ChoosingPath) == Some(
                    e@,
                ) && final(room)@ == old(room)@,
            },
    {
        match Self::check_turn(room, player_id, TurnPhase::ChoosingPath) {
            Ok(_) => {},
            Err(e) => {
                return Err(e);
            },
        }
        let engine = room.engine.as_ref().unwrap();
        let state = room.game_state.as_ref().unwrap();
        let new_state = engine.choose_path(state, path_index);
        let mut msgs: Vec<ServerMessage> = Vec::new();
        assert(msgs.deep_view() =~= Seq::<ServerMessageView>::empty());
        Self::settle(room, new_state, &mut msgs);
        Ok(msgs)
    }

    /// Applies the entry that the player who has the turn chose.
    pub(crate) fn action_in(room: &mut Room<T>, player_id: &str, action_id: &str) -> (r: Result<
        Vec<ServerMessage>,
        String,
    >)
        requires
            old(room)@.wf(),
        ensures
            final(room)@.wf(),
            final(room)@.id == old(room)@.id,
            match r {
                Ok(msgs) => play_refusal(old(room)@, player_id@, TurnPhase::ChoosingAction) is None
                    && final(room)@ == action_outcome(old(room)@, action_id@).0 && msgs.deep_view()
                    == action_outcome(old(room)@, action_id@).1,
                Err(e) => play_refusal(old(room)@, player_id@, TurnPhase::ChoosingAction) == Some(
                    e@,
                ) && final(room)@ == old(room)@,
            },
    {
        match Self::check_turn(room, player_id, TurnPhase::ChoosingAction) {
            Ok(_) => {},
            Err(e) => {
                return Err(e);
            },
        }
        let engine = room.engine.as_ref().unwrap();
        let state = room.game_state.as_ref().unwrap();
        let action = Self::parse_action(action_id, state);
        let (new_state, events) = engine.resolve_action(state, action);
        let mut msgs: Vec<ServerMessage> = Vec::new();
        assert(msgs.deep_view() =~= Seq::<ServerMessageView>::empty());
        push_choice_messages(&mut msgs, &events);
        Self::settle(room, new_state, &mut msgs);
        Ok(msgs)
    }
}

} // verus!
