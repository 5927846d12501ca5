//! The pollers for the data of the players: one for all of them, and one for a single player.

use vstd::prelude::*;
use crate::exporting::messages::ServerWsMessageView;
use crate::parsing::playerinfo::{PlayerData, PlayerDataView};
use crate::parsing::player::{Player, PlayerId, PlayerIdView, PlayerView};
use crate::polling::{next_step, step_after, PollerStep};
use crate::services::connection_pool::PoolError;
use crate::services::game_master::IncomingState;
use crate::services::DiContainer;

verus! {

/// One round of the players poller, after the fetch: the snapshots go to
/// the game master and the events they cause are published.  A failed fetch
/// changes nothing.
pub fn poll_players<T>(di: &mut DiContainer<T>, fetched: Result<Vec<PlayerData>, PoolError>) -> (step:
    PollerStep)
    requires
        old(di).well_formed(),
    ensures
        final(di).well_formed(),
        match fetched {
            Ok(players) => {
                &&& step == PollerStep::Continue
                &&& final(di).game_master@ == old(di).game_master@.with_players(
                    players.deep_view(),
                )
                &&& final(di).game_events@ == old(di).game_events@.after_sends(
                    old(di).game_master@.player_events(players.deep_view()).map_values(
                        |e| ServerWsMessageView::Rcon(e),
                    ),
                )
            },
            Err(e) => {
                &&& step == step_after(false, Some(e@))
                &&& final(di).game_master@ == old(di).game_master@
                &&& final(di).game_events@ == old(di).game_events@
            },
        },
{
    match fetched {
        Ok(players) => {
            di.feed(IncomingState::Players(players));
            PollerStep::Continue
        },
        Err(e) => next_step(false, Some(&e)),
    }
}

/// One round of the poller of a single player, after the fetch: the
/// snapshot goes to the game master and the event it causes, if any, is
/// published.  A failed fetch changes nothing.
pub fn poll_playerinfo<T>(di: &mut DiContainer<T>, fetched: Result<PlayerData, PoolError>) -> (step:
    PollerStep)
    requires
        old(di).well_formed(),
    ensures
        final(di).well_formed(),
        match fetched {
            Ok(player) => {
                &&& step == PollerStep::Continue
                &&& final(di).game_master@ == old(di).game_master@.with_player(player@)
                &&& final(di).game_events@ == match old(di).game_master@.player_event(player@) {
                    Some(event) => old(di).game_events@.after_send(ServerWsMessageView::Rcon(event)),
                    None => old(di).game_events@,
                }
            },
            Err(e) => {
                &&& step == step_after(false, Some(e@))
                &&& final(di).game_master@ == old(di).game_master@
                &&& final(di).game_events@ == old(di).game_events@
            },
        },
{
    match fetched {
        Ok(player) => {
            let mut batch: Vec<PlayerData> = Vec::new();
            batch.push(player);
            proof {
                reveal_with_fuel(crate::services::game_master::GameMasterView::with_players, 2);
                reveal_with_fuel(crate::services::game_master::GameMasterView::player_events, 2);
                reveal_with_fuel(crate::exporting::queue::EventSenderView::after_sends, 2);
            }
            di.feed(IncomingState::Players(batch));
            PollerStep::Continue
        },
        Err(e) => next_step(false, Some(&e)),
    }
}

/// The player that a snapshot is about: its name, and the id that its id text denotes.
pub open spec fn player_of(data: PlayerDataView) -> PlayerView {
    PlayerView { name: data.name, id: PlayerIdView::parse(data.id) }
}

/// The player that a snapshot is about.
pub fn player_from(data: &PlayerData) -> (player: Player)
    ensures
        player@ == player_of(data@),
{
    Player::new(data.name.clone(), PlayerId::parse(data.id.as_str()))
}

} // verus!
