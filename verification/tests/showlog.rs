use wise::config::{
    AuthConfig, ExportingConfig, FileConfig, LoggingConfig, PollingConfig, WebSocketConfig,
};
use wise::credentials::RconCredentials;
use wise::error::RconError;
use wise::events::RconEvent;
use wise::exporting::messages::ServerWsMessage;
use wise::exporting::queue::Delivery;
use wise::parsing::showlog::{LogKind, LogLine};
use wise::polling::showlog::{contains_line, merge_logs, merge_logs_at, poll_showlog_at};
use wise::polling::PollerStep;
use wise::services::connection_pool::PoolError;
use wise::services::DiContainer;

fn line(timestamp: u64, map: &str) -> LogLine {
    LogLine { timestamp, kind: LogKind::MatchStart { map: String::from(map) } }
}

fn config() -> FileConfig {
    FileConfig {
        rcon: RconCredentials { address: String::from("a:1"), password: String::from("p") },
        polling: PollingConfig { wait_ms: 500, cooldown_ms: 10 },
        auth: AuthConfig { tokens: vec![] },
        exporting: ExportingConfig {
            websocket: WebSocketConfig {
                enabled: true,
                address: String::from("0.0.0.0:1"),
                password: None,
                tls: false,
                cert_file: None,
                key_file: None,
            },
        },
        logging: LoggingConfig { level: 0 },
    }
}

#[test]
fn new_lines_are_untracked_and_become_known() {
    let mut known = vec![line(1000, "a")];
    let untracked = merge_logs_at(&mut known, vec![line(1000, "a"), line(1001, "b")], 1002);
    assert_eq!(untracked, vec![line(1001, "b")]);
    assert_eq!(known, vec![line(1000, "a"), line(1001, "b")]);
}

#[test]
fn merging_the_same_lines_twice_changes_nothing_the_second_time() {
    let new = vec![line(1000, "a"), line(1001, "b"), line(1002, "c")];
    let mut known = vec![line(990, "z")];
    let first = merge_logs_at(&mut known, new.clone(), 1003);
    assert_eq!(first, new);
    let after_first = known.clone();
    let second = merge_logs_at(&mut known, new.clone(), 1003);
    assert!(second.is_empty());
    assert_eq!(known, after_first);
}

#[test]
fn lines_older_than_two_minutes_are_forgotten() {
    let mut known = vec![line(1000, "a"), line(1060, "b")];
    let untracked = merge_logs_at(&mut known, vec![line(1121, "c")], 1121);
    assert_eq!(untracked, vec![line(1121, "c")]);
    // 1000 + 120 is not more than 1121, 1060 + 120 is.
    assert_eq!(known, vec![line(1060, "b"), line(1121, "c")]);
    merge_logs_at(&mut known, vec![], 1180);
    assert_eq!(known, vec![line(1121, "c")]);
    merge_logs_at(&mut known, vec![], 1241);
    assert!(known.is_empty());
}

#[test]
fn the_boundary_of_retention_is_exact() {
    let mut known = vec![line(880, "a"), line(881, "b")];
    merge_logs_at(&mut known, vec![], 1000);
    assert_eq!(known, vec![line(881, "b")]);
    // A clock of the first two minutes after the epoch forgets nothing.
    let mut known = vec![line(0, "a")];
    merge_logs_at(&mut known, vec![], 119);
    assert_eq!(known, vec![line(0, "a")]);
}

#[test]
fn a_line_is_not_published_at_two_consecutive_ticks() {
    let mut known = Vec::new();
    let first = merge_logs_at(&mut known, vec![line(1000, "a"), line(1001, "b")], 1001);
    let second =
        merge_logs_at(&mut known, vec![line(1001, "b"), line(1000, "a"), line(1002, "c")], 1121);
    assert_eq!(first, vec![line(1000, "a"), line(1001, "b")]);
    assert_eq!(second, vec![line(1002, "c")]);
}

#[test]
fn a_stale_line_is_published_again() {
    // The line is older than two minutes when it is fetched, so it is not
    // remembered and comes out again at the next tick.
    let mut known = Vec::new();
    let first = merge_logs_at(&mut known, vec![line(100, "old")], 1000);
    let second = merge_logs_at(&mut known, vec![line(100, "old")], 1000);
    assert_eq!(first, second);
    assert_eq!(first.len(), 1);
}

#[test]
fn merging_by_the_wall_clock_publishes_the_new_lines() {
    let mut known = vec![line(5, "long ago")];
    let now = u64::MAX - 1;
    let untracked = merge_logs(&mut known, vec![line(now, "far future"), line(5, "long ago")]);
    assert_eq!(untracked, vec![line(now, "far future")]);
    assert_eq!(known, vec![line(now, "far future")]);
}

#[test]
fn lines_are_compared_as_a_whole() {
    let known = vec![line(1, "a")];
    assert!(contains_line(&known, &line(1, "a")));
    assert!(!contains_line(&known, &line(2, "a")));
    assert!(!contains_line(&known, &line(1, "b")));
    assert!(!contains_line(
        &known,
        &LogLine {
            timestamp: 1,
            kind: LogKind::MatchEnded { map: String::from("a"), allied_score: 0, axis_score: 0 }
        }
    ));
}

#[test]
fn polling_twice_with_the_same_lines_publishes_them_once() {
    let mut di: DiContainer<()> = DiContainer::create(config());
    let mut subscriber = di.game_events.receiver().unwrap();
    let mut known = Vec::new();
    let lines = vec![line(1000, "a"), line(1001, "b"), line(1002, "c")];

    assert_eq!(poll_showlog_at(&mut di, &mut known, Ok(lines.clone()), 1002), PollerStep::Continue);
    for expected in lines.iter() {
        assert_eq!(
            subscriber.receive(&di.game_events),
            Delivery::Message(ServerWsMessage::Rcon(RconEvent::Log(expected.clone())))
        );
    }
    assert_eq!(subscriber.receive(&di.game_events), Delivery::Empty);

    assert_eq!(poll_showlog_at(&mut di, &mut known, Ok(lines.clone()), 1003), PollerStep::Continue);
    assert_eq!(subscriber.receive(&di.game_events), Delivery::Empty);

    // 121 seconds on, with lines whose timestamps have advanced.
    let later = vec![line(1100, "d"), line(1123, "e")];
    poll_showlog_at(&mut di, &mut known, Ok(later), 1123);
    assert!(known.iter().all(|l| l.timestamp > 1123 - 120));
    assert_eq!(known, vec![line(1100, "d"), line(1123, "e")]);
}

#[test]
fn a_failed_fetch_publishes_nothing() {
    let mut di: DiContainer<()> = DiContainer::create(config());
    let mut subscriber = di.game_events.receiver().unwrap();
    let mut known = vec![line(1, "a")];
    let step = poll_showlog_at(
        &mut di,
        &mut known,
        Err(PoolError::Recoverable(RconError::TimeOut)),
        1000,
    );
    assert_eq!(step, PollerStep::Continue);
    assert_eq!(known, vec![line(1, "a")]);
    assert_eq!(subscriber.receive(&di.game_events), Delivery::Empty);
    let step = poll_showlog_at(
        &mut di,
        &mut known,
        Err(PoolError::Unrecoverable(RconError::InvalidPassword)),
        1000,
    );
    assert_eq!(step, PollerStep::Stop);
}
