//! The periodic fetchers: how long each of them waits, what it does with
//! what it fetched, and when it stops.
//!
//! A poller waits for its period, fetches a snapshot through the pool,
//! feeds it to the game master and starts over.  It looks at its
//! cancellation signal between two rounds, never in the middle of one.

pub mod gamestate;
pub mod playerinfo;
pub mod showlog;
pub mod utils;

use vstd::prelude::*;
use crate::config::PollingConfig;
use crate::services::connection_pool::{PoolError, PoolErrorView};

verus! {

/// The kinds of pollers.
#[derive(Debug, Clone, Copy, PartialEq, Eq, Structural)]
pub enum PollerKind {
    /// Fetches the data of all players.
    Players,
    /// Fetches the state of the match.
    GameState,
    /// Fetches the admin log.
    ShowLog,
    /// Fetches the data of one player.
    PlayerInfo,
}

/// The period of the players poller, in milliseconds.
pub const PLAYERS_PERIOD_MS: u64 = 100;

/// The period of the admin log poller, in milliseconds.
pub const SHOWLOG_PERIOD_MS: u64 = 1000;

/// What a poller does after a round.
#[derive(Debug, Clone, Copy, PartialEq, Eq, Structural)]
pub enum PollerStep {
    /// It waits and starts the next round.
    Continue,
    /// It ends.
    Stop,
}

impl PollerKind {
    /// The period of a poller of this kind: fixed for the players and the
    /// admin log, configured for the state of the match and for a single player.
    pub open spec fn period_of(self, config: PollingConfig) -> u64 {
        match self {
            PollerKind::Players => PLAYERS_PERIOD_MS,
            PollerKind::GameState => config.wait_ms,
            PollerKind::ShowLog => SHOWLOG_PERIOD_MS,
            PollerKind::PlayerInfo => config.wait_ms,
        }
    }

    /// The period of a poller of this kind, in milliseconds.
    pub fn period(&self, config: &PollingConfig) -> (millis: u64)
        ensures
            millis == self.period_of(*config),
    {
        match self {
            PollerKind::Players => PLAYERS_PERIOD_MS,
            PollerKind::GameState => config.wait_ms,
            PollerKind::ShowLog => SHOWLOG_PERIOD_MS,
            PollerKind::PlayerInfo => config.wait_ms,
        }
    }
}

/// What a poller does after a round that was cancelled or not and failed
/// or not: it stops when it was cancelled or the pool gave up for good, and
/// goes on otherwise.
pub open spec fn step_after(cancelled: bool, failure: Option<PoolErrorView>) -> PollerStep {
    if cancelled || failure matches Some(PoolErrorView::Unrecoverable(_)) {
        PollerStep::Stop
    } else {
        PollerStep::Continue
    }
}

/// Decides what a poller does after a round.
pub fn next_step(cancelled: bool, failure: Option<&PoolError>) -> (step: PollerStep)
    ensures
        step == step_after(
            cancelled,
            match failure {
                Some(e) => Some(e@),
                None => None,
            },
        ),
{
    if cancelled {
        return PollerStep::Stop;
    }
    match failure {
        Some(PoolError::Unrecoverable(_)) => PollerStep::Stop,
        _ => PollerStep::Continue,
    }
}

} // verus!
