use wise::clock::{moment, reading, unix_now};
use wise::config::{
    AuthConfig, ExportingConfig, FileConfig, LoggingConfig, PollingConfig, WebSocketConfig,
};
use wise::commands::{
    broadcast_message_request, confirm, fetch_gamestate, fetch_player, fetch_player_request,
    fetch_players, fetch_players_request, fetch_showlog, fetch_showlog_request,
    individual_message_request, kick_player_request, punish_player_request, remove_temp_ban,
    temp_ban,
};
use wise::credentials::RconCredentials;
use wise::error::RconError;
use wise::events::{GameStateChanges, PlayerChanges, RconEvent};
use wise::manager::{Manager, PollerOrder, PollerTarget, StartOrder};
use wise::parsing::player::{Player, PlayerId};
use wise::parsing::playerinfo::{PlayerData, ScoreData, WorldPosition};
use wise::polling::showlog::poll_showlog_managed_at;
use wise::exporting::messages::ServerWsMessage;
use wise::exporting::queue::Delivery;
use wise::messages::RconResponse;
use wise::parsing::gamestate::GameState;
use wise::parsing::showlog::{LogKind, LogLine};
use wise::polling::gamestate::poll_gamestate;
use wise::polling::playerinfo::{player_from, poll_playerinfo, poll_players};
use wise::polling::PollerStep;
use wise::services::connection_pool::PoolError;
use wise::services::DiContainer;

fn response(status: i32, body: &str) -> RconResponse {
    RconResponse {
        status_code: status,
        status_message: String::from("m"),
        version: 2,
        name: String::from("n"),
        content_body: String::from(body),
    }
}

fn config() -> FileConfig {
    FileConfig {
        rcon: RconCredentials { address: String::from("a:1"), password: String::from("p") },
        polling: PollingConfig { wait_ms: 500, cooldown_ms: 10 },
        auth: AuthConfig { tokens: vec![] },
        exporting: ExportingConfig {
            websocket: WebSocketConfig {
                enabled: false,
                address: String::new(),
                password: None,
                tls: false,
                cert_file: None,
                key_file: None,
            },
        },
        logging: LoggingConfig { level: 0 },
    }
}

fn state(allied: u64) -> GameState {
    GameState {
        allied_players: allied,
        axis_players: 0,
        allied_score: 0,
        axis_score: 0,
        remaining_time: 0,
        map: String::from("a"),
        next_map: String::from("b"),
    }
}

#[test]
fn the_requests_of_the_typed_commands() {
    let r = fetch_players_request();
    assert_eq!((r.name.as_str(), r.content_body.as_str()), ("ServerInformation", "{\"Name\":\"players\",\"Value\":\"\"}"));
    let r = fetch_player_request("id-1");
    assert_eq!((r.name.as_str(), r.content_body.as_str()), ("ServerInformation", "{\"Name\":\"player\",\"Value\":\"id-1\"}"));
    let r = fetch_showlog_request();
    assert_eq!((r.name.as_str(), r.content_body.as_str()), ("AdminLog", "{\"Filters\":[],\"LogBackTrackTime\":\"60\"}"));
    let r = broadcast_message_request("hello");
    assert_eq!((r.name.as_str(), r.content_body.as_str()), ("ServerBroadcast", "hello"));
    let r = individual_message_request("id-1", "psst");
    assert_eq!((r.name.as_str(), r.content_body.as_str()), ("MessagePlayer", "{\"Message\":\"psst\",\"PlayerId\":\"id-1\"}"));
    let r = punish_player_request("id-1", "why");
    assert_eq!((r.name.as_str(), r.content_body.as_str()), ("PunishPlayer", "{\"PlayerId\":\"id-1\",\"Reason\":\"why\"}"));
    let r = kick_player_request("id-1", "why");
    assert_eq!((r.name.as_str(), r.content_body.as_str()), ("Kick", "{\"PlayerId\":\"id-1\",\"Reason\":\"why\"}"));
    assert_eq!(r.version, "2");
    assert_eq!(r.auth_token, "");
}

#[test]
fn the_admin_log_is_read_best_effort() {
    let body = "{\"entries\":[{\"message\":\"[1 sec (5)] MATCH START a\\n\"},{\"message\":\"garbage\"},{\"other\":1},{\"message\":7},7,{\"message\":\"[2 sec (6)] MATCH START b\\n\"}]}";
    assert_eq!(
        fetch_showlog(&response(200, body)),
        Ok(vec![
            LogLine { timestamp: 5, kind: LogKind::MatchStart { map: String::from("a") } },
            LogLine { timestamp: 6, kind: LogKind::MatchStart { map: String::from("b") } },
        ])
    );
    assert_eq!(fetch_showlog(&response(200, "{\"entries\":[]}")), Ok(vec![]));
    assert_eq!(fetch_showlog(&response(200, "{\"entries\":{}}")), Err(RconError::InvalidJson));
    assert_eq!(fetch_showlog(&response(200, "{}")), Err(RconError::InvalidJson));
    assert_eq!(fetch_showlog(&response(200, "nope")), Err(RconError::InvalidJson));
    assert_eq!(fetch_showlog(&response(500, "{\"entries\":[]}")), Err(RconError::Failure));
}

#[test]
fn a_player_is_read_from_the_body() {
    assert_eq!(fetch_player(&response(200, "{}")), Err(RconError::InvalidJson));
    assert_eq!(fetch_player(&response(200, "")), Err(RconError::InvalidJson));
    assert_eq!(fetch_player(&response(403, "{}")), Err(RconError::Failure));
    assert_eq!(fetch_players(&response(200, "{\"players\":5}")), Err(RconError::InvalidJson));
    assert_eq!(fetch_players(&response(200, "{\"players\":[]}")), Ok(vec![]));
}

#[test]
fn commands_without_data_need_a_success_status() {
    assert_eq!(confirm(&response(200, "")), Ok(()));
    assert_eq!(confirm(&response(201, "")), Err(RconError::Failure));
}

#[test]
fn commands_that_are_not_offered_fail() {
    assert!(matches!(fetch_gamestate(&response(200, "")), Err(RconError::InvalidData(_))));
    assert!(matches!(temp_ban(String::from("a"), String::from("b")), Err(RconError::InvalidData(_))));
    assert!(matches!(remove_temp_ban(String::from("a")), Err(RconError::InvalidData(_))));
}

#[test]
fn pollers_feed_the_game_master_and_publish() {
    let mut di: DiContainer<()> = DiContainer::create(config());
    let mut subscriber = di.game_events.receiver().unwrap();
    assert_eq!(poll_gamestate(&mut di, Ok(state(1))), PollerStep::Continue);
    assert_eq!(subscriber.receive(&di.game_events), Delivery::Empty);
    assert_eq!(poll_gamestate(&mut di, Ok(state(2))), PollerStep::Continue);
    assert_eq!(
        subscriber.receive(&di.game_events),
        Delivery::Message(ServerWsMessage::Rcon(RconEvent::Game {
            changes: vec![GameStateChanges::AlliedPlayers { old: 1, new: 2 }],
            new_state: state(2),
        }))
    );
    assert_eq!(
        poll_gamestate(&mut di, Err(PoolError::Unrecoverable(RconError::InvalidPassword))),
        PollerStep::Stop
    );
    assert_eq!(poll_players(&mut di, Ok(vec![])), PollerStep::Continue);
    assert_eq!(
        poll_players(&mut di, Err(PoolError::Recoverable(RconError::InvalidJson))),
        PollerStep::Continue
    );
    assert_eq!(subscriber.receive(&di.game_events), Delivery::Empty);
    assert_eq!(di.game_master.current_state(), Some(&state(2)));
}

#[test]
fn the_wall_clock_is_past_the_year_2020() {
    assert!(unix_now() > 1_577_836_800);
    assert!(unix_now() <= i64::MAX as u64);
}

#[test]
fn a_reading_before_the_epoch_is_the_epoch() {
    assert_eq!(moment(-1), 0);
    assert_eq!(moment(i64::MIN), 0);
    assert_eq!(moment(0), 0);
    assert_eq!(moment(1_718_212_472), 1_718_212_472);
    assert_eq!(moment(i64::MAX), 9_223_372_036_854_775_807);
}

fn snapshot(kills: u64) -> PlayerData {
    PlayerData {
        name: String::from("Name"),
        clan_tag: String::new(),
        id: String::from("76561198000000000"),
        platform: String::from("steam"),
        level: 1,
        team: 1,
        eosid: String::new(),
        role: 1,
        platoon: String::new(),
        kills,
        deaths: 0,
        score: ScoreData { combat: 0, defense: 0, support: 0, offense: 0 },
        world_position: WorldPosition {
            x: String::from("0"),
            y: String::from("0"),
            z: String::from("0"),
        },
        loadout: String::new(),
    }
}

#[test]
fn the_poller_of_one_player_publishes_a_change() {
    let mut di: DiContainer<()> = DiContainer::create(config());
    let mut subscriber = di.game_events.receiver().unwrap();
    assert_eq!(poll_playerinfo(&mut di, Ok(snapshot(1))), PollerStep::Continue);
    assert_eq!(subscriber.receive(&di.game_events), Delivery::Empty);
    assert_eq!(poll_playerinfo(&mut di, Ok(snapshot(2))), PollerStep::Continue);
    assert_eq!(
        subscriber.receive(&di.game_events),
        Delivery::Message(ServerWsMessage::Rcon(RconEvent::Player {
            old: snapshot(1),
            new: snapshot(2),
            changes: vec![PlayerChanges::Kills { old: 1, new: 2 }],
        }))
    );
    assert_eq!(
        poll_playerinfo(&mut di, Err(PoolError::Unrecoverable(RconError::TimeOut))),
        PollerStep::Stop
    );
    assert_eq!(
        player_from(&snapshot(1)),
        Player::new(String::from("Name"), PlayerId::Steam(76561198000000000))
    );
}

#[test]
fn the_log_poller_hands_connections_to_the_manager() {
    let mut di: DiContainer<()> = DiContainer::create(config());
    let mut manager = Manager::new();
    let mut known = Vec::new();
    let who = Player::new(String::from("a"), PlayerId::Steam(1));
    let lines = vec![
        LogLine { timestamp: 1000, kind: LogKind::Connect { player: who.clone(), has_connected: true } },
        LogLine { timestamp: 1000, kind: LogKind::MatchStart { map: String::from("m") } },
        LogLine { timestamp: 1001, kind: LogKind::Connect { player: who.clone(), has_connected: false } },
        LogLine { timestamp: 1002, kind: LogKind::Connect { player: who.clone(), has_connected: true } },
    ];
    let (step, orders) =
        poll_showlog_managed_at(&mut di, &mut manager, &mut known, Ok(lines.clone()), 1002);
    assert_eq!(step, PollerStep::Continue);
    assert_eq!(
        orders,
        vec![
            PollerOrder::Start(StartOrder { id: 1, target: PollerTarget::Player(who.clone()) }),
            PollerOrder::Stop(1),
            PollerOrder::Start(StartOrder { id: 2, target: PollerTarget::Player(who.clone()) }),
        ]
    );
    // The same lines again cause nothing.
    let (_, orders) = poll_showlog_managed_at(&mut di, &mut manager, &mut known, Ok(lines), 1003);
    assert!(orders.is_empty());
    assert!(manager.polls(&who));
    let (step, orders) = poll_showlog_managed_at(
        &mut di,
        &mut manager,
        &mut known,
        Err(PoolError::Unrecoverable(RconError::InvalidPassword)),
        1003,
    );
    assert_eq!(step, PollerStep::Stop);
    assert!(orders.is_empty());
}

#[test]
fn a_distance_from_the_epoch_is_a_signed_count() {
    assert_eq!(reading(Ok(0)), 0);
    assert_eq!(reading(Ok(1_718_212_472)), 1_718_212_472);
    assert_eq!(reading(Err(5)), -5);
    assert_eq!(reading(Ok(u64::MAX)), i64::MAX);
    assert_eq!(reading(Err(u64::MAX)), i64::MIN);
    assert_eq!(reading(Err(i64::MAX as u64)), -i64::MAX);
    assert_eq!(moment(reading(Err(5))), 0);
}
