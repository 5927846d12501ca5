//! Changes between two snapshots of the match.

use vstd::prelude::*;
use crate::events::{GameStateChanges, GameStateChangesView};
use crate::parsing::gamestate::{GameState, GameStateView};
use crate::exporting::messages::ServerWsMessageView;
use crate::polling::utils::detect;
use crate::polling::{next_step, step_after, PollerStep};
use crate::services::connection_pool::PoolError;
use crate::services::game_master::IncomingState;
use crate::services::DiContainer;

verus! {

/// The fields in which `new` differs from `old`, in the order allied
/// players, axis players, allied score, axis score, map, next map.  The
/// remaining time runs continuously and is not compared.
pub open spec fn game_changes(old: GameStateView, new: GameStateView) -> Seq<GameStateChangesView> {
    let allied_players = if old.allied_players != new.allied_players {
        seq![
            GameStateChangesView::AlliedPlayers {
                old: old.allied_players,
                new: new.allied_players,
            },
        ]
    } else {
        seq![]
    };
    let axis_players = if old.axis_players != new.axis_players {
        seq![GameStateChangesView::AxisPlayers { old: old.axis_players, new: new.axis_players }]
    } else {
        seq![]
    };
    let allied_score = if old.allied_score != new.allied_score {
        seq![GameStateChangesView::AlliedScore { old: old.allied_score, new: new.allied_score }]
    } else {
        seq![]
    };
    let axis_score = if old.axis_score != new.axis_score {
        seq![GameStateChangesView::AxisScore { old: old.axis_score, new: new.axis_score }]
    } else {
        seq![]
    };
    let map = if old.map != new.map {
        seq![GameStateChangesView::CurrentMap { old: old.map, new: new.map }]
    } else {
        seq![]
    };
    let next_map = if old.next_map != new.next_map {
        seq![GameStateChangesView::NextMap { old: old.next_map, new: new.next_map }]
    } else {
        seq![]
    };
    allied_players + axis_players + allied_score + axis_score + map + next_map
}

/// Whether `change` reports a field in which `new` differs from `old`, with
/// the values of that field in both.
pub open spec fn is_game_change(
    change: GameStateChangesView,
    old: GameStateView,
    new: GameStateView,
) -> bool {
    match change {
        GameStateChangesView::AlliedPlayers { old: o, new: n } => o == old.allied_players && n
            == new.allied_players && o != n,
        GameStateChangesView::AxisPlayers { old: o, new: n } => o == old.axis_players && n
            == new.axis_players && o != n,
        GameStateChangesView::AlliedScore { old: o, new: n } => o == old.allied_score && n
            == new.allied_score && o != n,
        GameStateChangesView::AxisScore { old: o, new: n } => o == old.axis_score && n
            == new.axis_score && o != n,
        GameStateChangesView::CurrentMap { old: o, new: n } => o == old.map && n == new.map && o
            != n,
        GameStateChangesView::NextMap { old: o, new: n } => o == old.next_map && n == new.next_map
            && o != n,
    }
}

/// Whether two snapshots agree in every field that is compared.
pub open spec fn same_game(old: GameStateView, new: GameStateView) -> bool {
    &&& old.allied_players == new.allied_players
    &&& old.axis_players == new.axis_players
    &&& old.allied_score == new.allied_score
    &&& old.axis_score == new.axis_score
    &&& old.map == new.map
    &&& old.next_map == new.next_map
}

/// Every reported change is a real one, and there is none exactly when the
/// snapshots agree in all compared fields.
pub proof fn lemma_game_changes_are_differences(old: GameStateView, new: GameStateView)
    ensures
        forall|i: int|
            0 <= i < game_changes(old, new).len() ==> is_game_change(
                #[trigger] game_changes(old, new)[i],
                old,
                new,
            ),
        game_changes(old, new).len() == 0 <==> same_game(old, new),
        game_changes(old, new).len() <= 6,
{
}

/// Compares two snapshots of the match field by field.
pub fn detect_changes(old: &GameState, new: &GameState) -> (changes: Vec<GameStateChanges>)
    ensures
        changes.deep_view() == game_changes(old@, new@),
{
    let mut changes: Vec<GameStateChanges> = Vec::new();
    detect(
        &mut changes,
        &old.allied_players,
        &new.allied_players,
        GameStateChanges::AlliedPlayers { old: old.allied_players, new: new.allied_players },
    );
    detect(
        &mut changes,
        &old.axis_players,
        &new.axis_players,
        GameStateChanges::AxisPlayers { old: old.axis_players, new: new.axis_players },
    );
    detect(
        &mut changes,
        &old.allied_score,
        &new.allied_score,
        GameStateChanges::AlliedScore { old: old.allied_score, new: new.allied_score },
    );
    detect(
        &mut changes,
        &old.axis_score,
        &new.axis_score,
        GameStateChanges::AxisScore { old: old.axis_score, new: new.axis_score },
    );
    detect(
        &mut changes,
        &old.map,
        &new.map,
        GameStateChanges::CurrentMap { old: old.map.clone(), new: new.map.clone() },
    );
    detect(
        &mut changes,
        &old.next_map,
        &new.next_map,
        GameStateChanges::NextMap { old: old.next_map.clone(), new: new.next_map.clone() },
    );
    changes
}

/// One round of the game state poller, after the fetch: the snapshot goes
/// to the game master and the event it causes, if any, is published.  A
/// failed fetch changes nothing.
pub fn poll_gamestate<T>(di: &mut DiContainer<T>, fetched: Result<GameState, PoolError>) -> (step:
    PollerStep)
    requires
        old(di).well_formed(),
    ensures
        final(di).well_formed(),
        match fetched {
            Ok(state) => {
                &&& step == PollerStep::Continue
                &&& final(di).game_master@ == old(di).game_master@.with_game(state@)
                &&& final(di).game_events@ == match old(di).game_master@.game_event(state@) {
                    Some(event) => old(di).game_events@.after_send(ServerWsMessageView::Rcon(event)),
                    None => old(di).game_events@,
                }
            },
            Err(e) => {
                &&& step == step_after(false, Some(e@))
                &&& final(di).game_master@ == old(di).game_master@
                &&& final(di).game_events@ == old(di).game_events@
            },
        },
{
    match fetched {
        Ok(state) => {
            let ghost queue = di.game_events@;
            di.feed(IncomingState::GameState(state));
            proof {
                reveal_with_fuel(crate::exporting::queue::EventSenderView::after_sends, 2);
            }
            PollerStep::Continue
        },
        Err(e) => next_step(false, Some(&e)),
    }
}

} // verus!
