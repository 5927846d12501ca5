//! The long-lived parts of the service: the picture of the game, the pool
//! of sessions, and the container that holds them together.

pub mod connection_pool;
pub mod game_master;
pub mod polling_manager;

use vstd::prelude::*;
use crate::config::FileConfig;
use crate::exporting::messages::ServerWsMessageView;
use crate::connection::RconConnection;
use crate::exporting::queue::{EventSender, EventSenderView, EVENT_QUEUE_CAPACITY};
use crate::parsing::playerinfo::PlayerDataView;
use crate::services::connection_pool::ConnectionPool;
use crate::services::game_master::{GameMaster, IncomingState};

verus! {

/// Everything that the pollers and the WebSocket server share; `T` is the
/// type of the connections to the game server.
pub struct DiContainer<T> {
    pub connection_pool: ConnectionPool<T>,
    pub game_master: GameMaster,
    pub config: FileConfig,
    pub game_events: EventSender,
}

impl<T> DiContainer<T> {
    /// The invariant of the container: its parts are well formed.
    pub open spec fn well_formed(&self) -> bool {
        self.game_master.well_formed() && self.game_events@.well_formed()
    }

    /// A container for the given configuration: an empty pool with the
    /// configured credentials, a game master that knows nothing, and an
    /// empty event queue.
    pub fn create(config: FileConfig) -> (di: Self)
        ensures
            di.well_formed(),
            di.config == config,
            di.connection_pool@ == Seq::<RconConnection<T>>::empty(),
            di.connection_pool.credentials_view() == config.rcon@,
            di.game_master@.players == Map::<Seq<char>, PlayerDataView>::empty(),
            di.game_master@.game is None,
            di.game_events@ == (EventSenderView {
                sent: 0,
                retained: Seq::empty(),
                capacity: EVENT_QUEUE_CAPACITY as nat,
                receivers: 0,
            }),
    {
        Self {
            connection_pool: ConnectionPool::new(config.rcon.clone()),
            game_master: GameMaster::new(),
            game_events: EventSender::new(),
            config,
        }
    }

    /// Hands a new state to the game master and publishes the events that it causes.
    pub fn feed(&mut self, incoming: IncomingState)
        requires
            old(self).well_formed(),
        ensures
            final(self).well_formed(),
            final(self).game_master@ == old(self).game_master@.after(incoming@),
            final(self).game_events@ == old(self).game_events@.after_sends(
                old(self).game_master@.events(incoming@).map_values(
                    |e| ServerWsMessageView::Rcon(e),
                ),
            ),
            final(self).config == old(self).config,
            final(self).connection_pool == old(self).connection_pool,
    {
        let events = self.game_master.update_state(incoming);
        self.game_events.send_all(events);
    }
}

} // verus!
