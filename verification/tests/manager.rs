use wise::config::PollingConfig;
use wise::constants::next_id;
use wise::error::RconError;
use wise::manager::{Lifecycle, Manager, PollerTarget, StartOrder};
use wise::parsing::player::{Player, PlayerId};
use wise::parsing::showlog::{LogKind, LogLine};
use wise::polling::utils::{wait_for, PollWaiter, JITTER_MS};
use wise::polling::{next_step, PollerKind, PollerStep};
use wise::services::connection_pool::PoolError;
use wise::services::polling_manager::start_polling;
use wise::utils::{get_levelfilter, LevelFilter};

fn player(name: &str, id: u64) -> Player {
    Player::new(String::from(name), PlayerId::Steam(id))
}

fn connect(name: &str, id: u64, has_connected: bool) -> LogLine {
    LogLine { timestamp: 1, kind: LogKind::Connect { player: player(name, id), has_connected } }
}

#[test]
fn ids_grow_and_a_player_is_polled_once() {
    let mut manager = Manager::new();
    assert_eq!(manager.start_playerinfo_poller(player("a", 1)), Some(1));
    assert_eq!(manager.start_playerinfo_poller(player("b", 2)), Some(2));
    assert_eq!(manager.start_playerinfo_poller(player("a", 1)), None);
    assert_eq!(manager.start_poller(), Some(3));
    assert!(manager.polls(&player("a", 1)));
    assert!(!manager.polls(&player("a", 2)));
    assert_eq!(manager.stop_playerinfo_poller(&player("a", 1)), Some(1));
    assert_eq!(manager.stop_playerinfo_poller(&player("a", 1)), None);
    assert!(!manager.polls(&player("a", 1)));
    // An id is never handed out twice.
    assert_eq!(manager.start_playerinfo_poller(player("a", 1)), Some(4));
}

#[test]
fn the_log_starts_and_stops_pollers() {
    let mut manager = Manager::new();
    assert_eq!(manager.handle_log(&connect("a", 1, true)), Lifecycle::Start(1));
    assert_eq!(manager.handle_log(&connect("a", 1, true)), Lifecycle::Nothing);
    assert_eq!(manager.handle_log(&connect("b", 2, false)), Lifecycle::Nothing);
    assert_eq!(manager.handle_log(&connect("b", 2, true)), Lifecycle::Start(2));
    assert_eq!(manager.handle_log(&connect("a", 1, false)), Lifecycle::Stop(1));
    assert_eq!(
        manager.handle_log(&LogLine {
            timestamp: 2,
            kind: LogKind::MatchStart { map: String::from("m") }
        }),
        Lifecycle::Nothing
    );
    assert!(manager.polls(&player("b", 2)));
}

#[test]
fn a_poller_stops_when_cancelled_or_when_the_pool_gives_up() {
    assert_eq!(next_step(false, None), PollerStep::Continue);
    assert_eq!(next_step(true, None), PollerStep::Stop);
    assert_eq!(
        next_step(false, Some(&PoolError::Recoverable(RconError::TimeOut))),
        PollerStep::Continue
    );
    assert_eq!(
        next_step(false, Some(&PoolError::Unrecoverable(RconError::TimeOut))),
        PollerStep::Stop
    );
}

#[test]
fn periods_are_as_specified() {
    let config = PollingConfig { wait_ms: 750, cooldown_ms: 5 };
    assert_eq!(PollerKind::Players.period(&config), 100);
    assert_eq!(PollerKind::GameState.period(&config), 750);
    assert_eq!(PollerKind::ShowLog.period(&config), 1000);
    assert_eq!(PollerKind::PlayerInfo.period(&config), 750);
    assert_eq!(start_polling(), vec![PollerKind::Players, PollerKind::ShowLog]);
}

#[test]
fn the_wait_is_the_rest_of_the_period_plus_jitter() {
    assert_eq!(JITTER_MS, 50);
    assert_eq!(wait_for(100, 30, 0), 70);
    assert_eq!(wait_for(100, 30, 49), 119);
    assert_eq!(wait_for(100, 30, 50), 70);
    assert_eq!(wait_for(100, 30, 12345), 70 + 45);
    assert_eq!(wait_for(100, 100, 7), 7);
    assert_eq!(wait_for(100, 5000, 7), 7);
    assert_eq!(wait_for(100, u128::MAX, 99), 49);
    assert_eq!(wait_for(u64::MAX, 0, 49), u64::MAX);
    assert_eq!(wait_for(0, 0, 0), 0);
}

#[test]
fn a_waiter_waits_between_the_jitter_and_the_period_plus_jitter() {
    let mut waiter = PollWaiter::new(1000);
    let wait = waiter.wait(1049);
    assert!(wait >= 49 && wait <= 1049, "{}", wait);
    waiter.restart();
    let wait = waiter.wait(0);
    assert!(wait <= 1000, "{}", wait);
    assert!(PollWaiter::new(0).wait(3) == 3);
}

#[test]
fn session_ids_count_up() {
    let mut counter = 0;
    assert_eq!(next_id(&mut counter), 1);
    assert_eq!(next_id(&mut counter), 2);
    assert_eq!(counter, 2);
    let mut counter = u64::MAX;
    assert_eq!(next_id(&mut counter), 0);
}

#[test]
fn levels_map_to_filters() {
    assert_eq!(get_levelfilter(-2), LevelFilter::Error);
    assert_eq!(get_levelfilter(-1), LevelFilter::Warn);
    assert_eq!(get_levelfilter(0), LevelFilter::Info);
    assert_eq!(get_levelfilter(1), LevelFilter::Debug);
    assert_eq!(get_levelfilter(2), LevelFilter::Trace);
    assert_eq!(get_levelfilter(3), LevelFilter::Info);
    assert_eq!(get_levelfilter(i32::MIN), LevelFilter::Info);
}

#[test]
fn resuming_starts_a_poller_per_player_and_then_the_two_others() {
    let mut manager = Manager::new();
    assert_eq!(manager.start_playerinfo_poller(player("b", 2)), Some(1));
    let orders = manager.resume_polling(vec![player("a", 1), player("b", 2), player("a", 1), player("c", 3)]);
    assert_eq!(
        orders,
        vec![
            StartOrder { id: 2, target: PollerTarget::Player(player("a", 1)) },
            StartOrder { id: 3, target: PollerTarget::Player(player("c", 3)) },
            StartOrder { id: 4, target: PollerTarget::ShowLog },
            StartOrder { id: 5, target: PollerTarget::GameState },
        ]
    );
    assert!(manager.polls(&player("c", 3)));
    let orders = Manager::new().resume_polling(vec![]);
    assert_eq!(
        orders,
        vec![
            StartOrder { id: 1, target: PollerTarget::ShowLog },
            StartOrder { id: 2, target: PollerTarget::GameState },
        ]
    );
}
