use wise::config::{
    AuthConfig, AuthPerms, AuthToken, ExportingConfig, FileConfig, LoggingConfig, PollingConfig,
    WebSocketConfig,
};
use wise::credentials::RconCredentials;
use wise::error::RconError;
use wise::events::{GameStateChanges, PlayerChanges, RconEvent, ScoreKind};
use wise::exporting::auth::{authenticate_token, AuthHandle};
use wise::exporting::messages::{
    ClientWsMessage, ClientWsRequest, CommandRequestKind, CommandResponseKind, ServerWsMessage,
    ServerWsResponse,
};
use wise::exporting::queue::{Delivery, EventSender};
use wise::exporting::websocket::{
    accept_client_message, authenticate_with_password, client_command_request,
    execute_client_command, handle_client_message, handle_token, outbound, ClientAction,
    FirstFrame, WebSocketError,
};
use wise::messages::RconResponse;
use wise::parsing::gamestate::GameState;
use wise::parsing::player::{Player, PlayerId};
use wise::parsing::playerinfo::{PlayerData, ScoreData, WorldPosition};
use wise::parsing::showlog::{LogKind, LogLine};

fn token(name: &str, value: &str, read: bool, write: bool) -> AuthToken {
    AuthToken {
        name: String::from(name),
        value: String::from(value),
        perms: AuthPerms { read_rcon_events: read, write_rcon: write },
    }
}

fn config(tokens: Vec<AuthToken>) -> FileConfig {
    FileConfig {
        rcon: RconCredentials { address: String::from("a:1"), password: String::from("p") },
        polling: PollingConfig { wait_ms: 500, cooldown_ms: 10 },
        auth: AuthConfig { tokens },
        exporting: ExportingConfig {
            websocket: WebSocketConfig {
                enabled: true,
                address: String::from("0.0.0.0:1"),
                password: Some(String::from("secret")),
                tls: true,
                cert_file: Some(String::from("cert.pem")),
                key_file: None,
            },
        },
        logging: LoggingConfig { level: 0 },
    }
}

fn response(status: i32, body: &str) -> RconResponse {
    RconResponse {
        status_code: status,
        status_message: String::from("m"),
        version: 2,
        name: String::from("n"),
        content_body: String::from(body),
    }
}

fn player() -> PlayerData {
    PlayerData {
        name: String::from("N"),
        clan_tag: String::new(),
        id: String::from("u1"),
        platform: String::from("steam"),
        level: 3,
        team: -1,
        eosid: String::from("e"),
        role: 2,
        platoon: String::from("p"),
        kills: 4,
        deaths: 5,
        score: ScoreData { combat: 1, defense: 2, support: 3, offense: 4 },
        world_position: WorldPosition {
            x: String::from("1.5"),
            y: String::from("-20"),
            z: String::from("0.0"),
        },
        loadout: String::from("l"),
    }
}

const PLAYER_JSON: &str = "{\"name\":\"N\",\"clanTag\":\"\",\"iD\":\"u1\",\"platform\":\"steam\",\"level\":3,\"team\":-1,\"eOSId\":\"e\",\"role\":2,\"platoon\":\"p\",\"kills\":4,\"deaths\":5,\"scoreData\":{\"cOMBAT\":1,\"defense\":2,\"support\":3,\"offense\":4},\"worldPosition\":{\"x\":1.5,\"y\":-20,\"z\":0.0},\"loadout\":\"l\"}";

#[test]
fn a_client_without_read_permission_gets_no_events_but_may_execute() {
    let config = config(vec![token("writer", "w-token", false, true)]);
    let handle = handle_token(&FirstFrame::Text(String::from("w-token")), &config).unwrap();
    assert_eq!(handle.name, "writer");
    assert_eq!(handle.perms, AuthPerms { read_rcon_events: false, write_rcon: true });

    let mut queue = EventSender::new();
    let mut subscriber = queue.receiver().unwrap();
    let event = RconEvent::Log(LogLine {
        timestamp: 1,
        kind: LogKind::MatchStart { map: String::from("m") },
    });
    queue.send_rcon(event);
    match subscriber.receive(&queue) {
        Delivery::Message(message) => assert_eq!(outbound(&message, &handle), None),
        other => panic!("{:?}", other),
    }

    let frame = "{\"Request\":{\"id\":\"r1\",\"value\":{\"Execute\":{\"Broadcast\":\"hi\"}}}}";
    let (id, command) = match accept_client_message(frame, &handle) {
        ClientAction::Dispatch { id, command } => (id, command),
        other => panic!("{:?}", other),
    };
    assert_eq!(command, CommandRequestKind::Broadcast(String::from("hi")));
    let request = client_command_request(&command).unwrap();
    assert_eq!(request.name, "ServerBroadcast");
    assert_eq!(request.content_body, "hi");
    let outcome = execute_client_command(&command, response(200, ""));
    assert_eq!(outcome, Ok(CommandResponseKind::Success));
    let answer = handle_client_message(id, outcome).unwrap();
    assert_eq!(
        answer,
        ServerWsMessage::Response {
            id: String::from("r1"),
            value: ServerWsResponse::Execute {
                failure: false,
                response: Some(CommandResponseKind::Success)
            },
        }
    );
    queue.send(answer);
    match subscriber.receive(&queue) {
        Delivery::Message(message) => assert_eq!(
            outbound(&message, &handle),
            Some(String::from(
                "{\"Response\":{\"id\":\"r1\",\"value\":{\"Execute\":{\"failure\":false,\"response\":\"Success\"}}}}"
            ))
        ),
        other => panic!("{:?}", other),
    }
}

#[test]
fn tokens_are_matched_letter_for_letter() {
    let config = config(vec![
        token("first", "abc", true, false),
        token("second", "ABC", false, true),
        token("shadowed", "abc", true, true),
    ]);
    assert_eq!(authenticate_token("abc", &config).unwrap().name, "first");
    assert_eq!(authenticate_token("ABC", &config).unwrap().name, "second");
    assert!(authenticate_token("Abc", &config).is_err());
    assert!(authenticate_token("", &config).is_err());
    assert!(authenticate_token("abc ", &config).is_err());
}

#[test]
fn anything_but_a_known_token_in_a_text_frame_drops_the_connection() {
    let config = config(vec![token("t", "abc", true, true)]);
    assert!(handle_token(&FirstFrame::Text(String::from("abc")), &config).is_ok());
    assert!(handle_token(&FirstFrame::Text(String::from("abd")), &config).is_err());
    assert!(handle_token(&FirstFrame::Other, &config).is_err());
    assert!(handle_token(&FirstFrame::TimedOut, &config).is_err());
    assert!(handle_token(&FirstFrame::Closed, &config).is_err());
}

#[test]
fn the_default_handle_allows_nothing() {
    let handle = AuthHandle::default_no_perms();
    assert_eq!(handle.name, "default-token");
    assert_eq!(handle.perms, AuthPerms::default());
    assert!(!handle.may_execute());
    assert!(handle.may_receive(&ServerWsMessage::Authenticated));
    assert_eq!(outbound(&ServerWsMessage::Authenticated, &handle), Some(String::from("{\"Authenticated\":null}")));
    let frame = "{\"Request\":{\"id\":\"r1\",\"value\":{\"Execute\":\"GetPlayers\"}}}";
    assert_eq!(accept_client_message(frame, &handle), ClientAction::Reject);
    assert_eq!(accept_client_message("not json", &handle), ClientAction::Ignore);
}

#[test]
fn the_password_is_checked() {
    assert_eq!(authenticate_with_password("secret", &FirstFrame::Text(String::from("secret"))), Ok(()));
    assert_eq!(
        authenticate_with_password("secret", &FirstFrame::Text(String::from("Secret"))),
        Err(WebSocketError::InvalidPassword(Some(String::from("Secret"))))
    );
    assert_eq!(
        authenticate_with_password("secret", &FirstFrame::Other),
        Err(WebSocketError::InvalidPassword(None))
    );
    assert_eq!(
        authenticate_with_password("secret", &FirstFrame::Closed),
        Err(WebSocketError::InvalidPassword(None))
    );
    assert_eq!(
        authenticate_with_password("secret", &FirstFrame::TimedOut),
        Err(WebSocketError::PasswordTimeout)
    );
}

#[test]
fn client_messages_are_read_in_all_their_forms() {
    let cases: Vec<(&str, CommandRequestKind)> = vec![
        ("\"GetPlayers\"", CommandRequestKind::GetPlayers),
        ("{\"GetPlayers\":null}", CommandRequestKind::GetPlayers),
        ("\"GetGameState\"", CommandRequestKind::GetGameState),
        ("{\"GetPlayer\":\"u1\"}", CommandRequestKind::GetPlayer(String::from("u1"))),
        ("{\"Broadcast\":\"m\"}", CommandRequestKind::Broadcast(String::from("m"))),
        (
            "{\"MessagePlayer\":[\"u1\",\"m\"]}",
            CommandRequestKind::MessagePlayer(String::from("u1"), String::from("m")),
        ),
        (
            "{\"PunishPlayer\":[\"u1\",\"r\"]}",
            CommandRequestKind::PunishPlayer(String::from("u1"), String::from("r")),
        ),
        (
            "{\"KickPlayer\":[\"u1\",\"r\"]}",
            CommandRequestKind::KickPlayer(String::from("u1"), String::from("r")),
        ),
        ("{\"TemporaryBan\":[]}", CommandRequestKind::TemporaryBan()),
        ("{\"RemoveTemporaryBan\":[]}", CommandRequestKind::RemoveTemporaryBan()),
        (
            "{\"Raw\":{\"name\":\"n\",\"content_body\":\"b\"}}",
            CommandRequestKind::Raw { name: String::from("n"), content_body: String::from("b") },
        ),
        (
            "{\"Raw\":{\"name\":\"n\"}}",
            CommandRequestKind::Raw { name: String::from("n"), content_body: String::new() },
        ),
    ];
    for (kind, expected) in cases {
        let frame = format!("{{\"Request\":{{\"id\":\"7\",\"value\":{{\"Execute\":{}}}}}}}", kind);
        assert_eq!(
            ClientWsMessage::parse(&frame),
            Some(ClientWsMessage::Request {
                id: Some(String::from("7")),
                value: ClientWsRequest::Execute(expected)
            }),
            "{}",
            frame
        );
    }
    assert_eq!(
        ClientWsMessage::parse("{\"Request\":{\"value\":{\"Execute\":\"GetPlayers\"}}}"),
        Some(ClientWsMessage::Request {
            id: None,
            value: ClientWsRequest::Execute(CommandRequestKind::GetPlayers)
        })
    );
    assert_eq!(
        ClientWsMessage::parse("{\"Request\":{\"id\":null,\"value\":{\"Execute\":\"GetPlayers\"}}}"),
        Some(ClientWsMessage::Request {
            id: None,
            value: ClientWsRequest::Execute(CommandRequestKind::GetPlayers)
        })
    );
}

#[test]
fn malformed_client_messages_are_not_read() {
    for frame in [
        "",
        "{}",
        "\"Request\"",
        "{\"Request\":{\"id\":5,\"value\":{\"Execute\":\"GetPlayers\"}}}",
        "{\"Request\":{\"id\":\"7\"}}",
        "{\"Request\":{\"id\":\"7\",\"value\":{\"Run\":\"GetPlayers\"}}}",
        "{\"Request\":{\"id\":\"7\",\"value\":{\"Execute\":\"Unknown\"}}}",
        "{\"Request\":{\"id\":\"7\",\"value\":{\"Execute\":{\"GetPlayers\":5}}}}",
        "{\"Request\":{\"id\":\"7\",\"value\":{\"Execute\":\"Broadcast\"}}}",
        "{\"Request\":{\"id\":\"7\",\"value\":{\"Execute\":{\"MessagePlayer\":[\"a\"]}}}}",
        "{\"Request\":{\"id\":\"7\",\"value\":{\"Execute\":{\"MessagePlayer\":[\"a\",1]}}}}",
        "{\"Request\":{\"id\":\"7\",\"value\":{\"Execute\":{\"TemporaryBan\":[1]}}}}",
        "{\"Request\":{\"id\":\"7\",\"value\":{\"Execute\":{\"Raw\":{\"content_body\":\"b\"}}}}}",
        "{\"Request\":{\"id\":\"7\",\"value\":{\"Execute\":{\"Raw\":{\"name\":\"n\",\"content_body\":null}}}}}",
        "{\"Request\":{\"id\":\"7\",\"value\":{\"Execute\":{\"GetPlayer\":\"a\",\"Broadcast\":\"b\"}}}}",
    ] {
        assert_eq!(ClientWsMessage::parse(frame), None, "{}", frame);
    }
}

#[test]
fn commands_map_to_requests() {
    let request = |kind: CommandRequestKind| {
        let r = client_command_request(&kind).unwrap();
        (r.name, r.content_body)
    };
    assert_eq!(
        request(CommandRequestKind::Raw { name: String::from("X"), content_body: String::from("y") }),
        (String::from("X"), String::from("y"))
    );
    assert_eq!(
        request(CommandRequestKind::GetPlayers),
        (String::from("ServerInformation"), String::from("{\"Name\":\"players\",\"Value\":\"\"}"))
    );
    assert_eq!(
        request(CommandRequestKind::GetPlayer(String::from("u\"1"))),
        (
            String::from("ServerInformation"),
            String::from("{\"Name\":\"player\",\"Value\":\"u\\\"1\"}")
        )
    );
    assert_eq!(
        request(CommandRequestKind::MessagePlayer(String::from("u1"), String::from("m"))),
        (String::from("MessagePlayer"), String::from("{\"Message\":\"m\",\"PlayerId\":\"u1\"}"))
    );
    assert_eq!(
        request(CommandRequestKind::PunishPlayer(String::from("u1"), String::from("r"))),
        (String::from("PunishPlayer"), String::from("{\"PlayerId\":\"u1\",\"Reason\":\"r\"}"))
    );
    assert_eq!(
        request(CommandRequestKind::KickPlayer(String::from("u1"), String::from("r"))),
        (String::from("Kick"), String::from("{\"PlayerId\":\"u1\",\"Reason\":\"r\"}"))
    );
    for kind in [
        CommandRequestKind::GetGameState,
        CommandRequestKind::TemporaryBan(),
        CommandRequestKind::RemoveTemporaryBan(),
    ] {
        assert!(matches!(client_command_request(&kind), Err(RconError::InvalidData(_))));
        assert!(matches!(
            execute_client_command(&kind, response(200, "")),
            Err(RconError::InvalidData(_))
        ));
    }
}

#[test]
fn responses_map_to_answers() {
    let raw = CommandRequestKind::Raw { name: String::from("X"), content_body: String::new() };
    assert_eq!(
        execute_client_command(&raw, response(500, "b")),
        Ok(CommandResponseKind::Raw(response(500, "b")))
    );
    let body = format!("{{\"players\":[{}]}}", PLAYER_JSON);
    assert_eq!(
        execute_client_command(&CommandRequestKind::GetPlayers, response(200, &body)),
        Ok(CommandResponseKind::GetPlayers(vec![player()]))
    );
    assert_eq!(
        execute_client_command(&CommandRequestKind::GetPlayer(String::from("u1")), response(200, PLAYER_JSON)),
        Ok(CommandResponseKind::GetPlayer(Some(player())))
    );
    assert_eq!(
        execute_client_command(&CommandRequestKind::GetPlayers, response(200, "{}")),
        Err(RconError::InvalidJson)
    );
    assert_eq!(
        execute_client_command(&CommandRequestKind::GetPlayers, response(200, "{\"players\":[{}]}")),
        Err(RconError::InvalidJson)
    );
    assert_eq!(
        execute_client_command(&CommandRequestKind::GetPlayers, response(404, &body)),
        Err(RconError::Failure)
    );
    assert_eq!(
        execute_client_command(
            &CommandRequestKind::KickPlayer(String::from("u"), String::from("r")),
            response(400, "")
        ),
        Err(RconError::Failure)
    );
}

#[test]
fn a_failed_command_is_answered_without_a_response() {
    assert_eq!(
        handle_client_message(Some(String::from("9")), Err(RconError::TimeOut)),
        Some(ServerWsMessage::Response {
            id: String::from("9"),
            value: ServerWsResponse::Execute { failure: true, response: None },
        })
    );
    assert_eq!(handle_client_message(None, Ok(CommandResponseKind::Success)), None);
    let handle = AuthHandle::default_no_perms();
    let failed = handle_client_message(Some(String::from("9")), Err(RconError::TimeOut)).unwrap();
    assert_eq!(
        outbound(&failed, &handle),
        Some(String::from(
            "{\"Response\":{\"id\":\"9\",\"value\":{\"Execute\":{\"failure\":true,\"response\":null}}}}"
        ))
    );
}

#[test]
fn events_are_written_as_tagged_objects() {
    let state = GameState {
        allied_players: 1,
        axis_players: 2,
        allied_score: 3,
        axis_score: 4,
        remaining_time: 90,
        map: String::from("a"),
        next_map: String::from("b"),
    };
    let game = ServerWsMessage::Rcon(RconEvent::Game {
        changes: vec![
            GameStateChanges::CurrentMap { old: String::from("z"), new: String::from("a") },
            GameStateChanges::AxisScore { old: 3, new: 4 },
        ],
        new_state: state,
    });
    assert_eq!(
        game.to_frame(),
        "{\"Rcon\":{\"Game\":{\"changes\":[{\"Map\":{\"old\":\"z\",\"new\":\"a\"}},{\"AxisScore\":{\"old\":3,\"new\":4}}],\"new_state\":{\"allied_players\":1,\"axis_players\":2,\"allied_score\":3,\"axis_score\":4,\"remaining_time\":{\"secs\":90,\"nanos\":0},\"map\":\"a\",\"next_map\":\"b\"}}}}"
    );
    let log = ServerWsMessage::Rcon(RconEvent::Log(LogLine {
        timestamp: 17,
        kind: LogKind::Connect {
            player: Player::new(String::from("P"), PlayerId::Steam(5)),
            has_connected: true,
        },
    }));
    assert_eq!(
        log.to_frame(),
        "{\"Rcon\":{\"Log\":{\"timestamp\":17,\"kind\":{\"Connect\":{\"player\":{\"name\":\"P\",\"id\":{\"Steam\":5}},\"has_connected\":true}}}}}"
    );
    let changed = ServerWsMessage::Rcon(RconEvent::Player {
        old: player(),
        new: player(),
        changes: vec![
            PlayerChanges::Team { old: -1, new: 2 },
            PlayerChanges::Score { kind: ScoreKind::Combat, old: 1, new: 2 },
        ],
    });
    assert_eq!(
        changed.to_frame(),
        format!(
            "{{\"Rcon\":{{\"Player\":{{\"old\":{p},\"new\":{p},\"changes\":[{{\"Team\":{{\"old\":-1,\"new\":2}}}},{{\"Score\":{{\"kind\":\"Combat\",\"old\":1,\"new\":2}}}}]}}}}}}",
            p = PLAYER_JSON
        )
    );
}

#[test]
fn tls_files_are_named_only_when_both_are_given() {
    let mut config = config(vec![]);
    assert_eq!(config.exporting.websocket.tls_files(), None);
    config.exporting.websocket.key_file = Some(String::from("key.pem"));
    assert_eq!(
        config.exporting.websocket.tls_files(),
        Some((&String::from("cert.pem"), &String::from("key.pem")))
    );
    config.exporting.websocket.tls = false;
    assert_eq!(config.exporting.websocket.tls_files(), None);
}

fn messages() -> Vec<ServerWsMessage> {
    let state = GameState {
        allied_players: 1,
        axis_players: 2,
        allied_score: 3,
        axis_score: u64::MAX,
        remaining_time: 90,
        map: String::from("a \"quoted\" map"),
        next_map: String::from("b\nc"),
    };
    let who = |name: &str, id: PlayerId| Player::new(String::from(name), id);
    let line = |kind: LogKind| ServerWsMessage::Rcon(RconEvent::Log(LogLine { timestamp: 17, kind }));
    let answer = |response: Option<CommandResponseKind>| ServerWsMessage::Response {
        id: String::from("id-\u{e9}"),
        value: ServerWsResponse::Execute { failure: response.is_none(), response },
    };
    let mut moved = player();
    moved.world_position.x = String::from("-0.25");
    vec![
        ServerWsMessage::Authenticated,
        ServerWsMessage::Rcon(RconEvent::Game {
            changes: vec![
                GameStateChanges::AlliedPlayers { old: 0, new: 1 },
                GameStateChanges::AxisPlayers { old: 3, new: 2 },
                GameStateChanges::AlliedScore { old: 2, new: 3 },
                GameStateChanges::AxisScore { old: 3, new: 4 },
                GameStateChanges::CurrentMap { old: String::from("z"), new: String::from("a") },
                GameStateChanges::NextMap { old: String::new(), new: String::from("b") },
            ],
            new_state: state.clone(),
        }),
        ServerWsMessage::Rcon(RconEvent::Player {
            old: player(),
            new: moved.clone(),
            changes: vec![
                PlayerChanges::Name { old: String::from("a"), new: String::from("b") },
                PlayerChanges::ClanTag { old: String::from("a"), new: String::from("b") },
                PlayerChanges::Platoon { old: String::from("a"), new: String::from("b") },
                PlayerChanges::Team { old: i32::MIN, new: i32::MAX },
                PlayerChanges::Role { old: 0, new: -1 },
                PlayerChanges::Loadout { old: String::from("a"), new: String::from("b") },
                PlayerChanges::Kills { old: 1, new: 2 },
                PlayerChanges::Deaths { old: 1, new: 2 },
                PlayerChanges::Score { kind: ScoreKind::Combat, old: 1, new: 2 },
                PlayerChanges::Score { kind: ScoreKind::Offense, old: 1, new: 2 },
                PlayerChanges::Score { kind: ScoreKind::Defense, old: 1, new: 2 },
                PlayerChanges::Score { kind: ScoreKind::Support, old: 1, new: 2 },
                PlayerChanges::Level { old: 1, new: 2 },
                PlayerChanges::WorldPosition {
                    old: player().world_position,
                    new: moved.world_position.clone(),
                },
            ],
        }),
        ServerWsMessage::Rcon(RconEvent::Player { old: player(), new: player(), changes: vec![] }),
        line(LogKind::Connect {
            player: who("P", PlayerId::Steam(5)),
            has_connected: false,
        }),
        line(LogKind::TeamSwitch {
            player: who("P", PlayerId::Windows(String::from("w"))),
            old_team: String::from("None"),
            new_team: String::from("Axis"),
        }),
        line(LogKind::Kill {
            killer: who("K", PlayerId::Steam(u64::MAX)),
            killer_faction: String::from("Allies"),
            victim: who("V", PlayerId::Steam(0)),
            victim_faction: String::from("Axis"),
            is_teamkill: true,
            weapon: String::from("M1 GARAND"),
        }),
        line(LogKind::MatchStart { map: String::from("m") }),
        line(LogKind::MatchEnded { map: String::from("m"), allied_score: 5, axis_score: 0 }),
        line(LogKind::Chat {
            sender: who("S", PlayerId::Steam(1)),
            team: String::from("Axis"),
            reach: String::from("Unit"),
            content: String::from("hello, \"world\" \\ \u{1F600}"),
        }),
        answer(None),
        answer(Some(CommandResponseKind::Success)),
        answer(Some(CommandResponseKind::Error(String::from("e")))),
        answer(Some(CommandResponseKind::Raw(response(-7, "body")))),
        answer(Some(CommandResponseKind::GetGameState(state))),
        answer(Some(CommandResponseKind::GetPlayers(vec![player(), moved]))),
        answer(Some(CommandResponseKind::GetPlayers(vec![]))),
        answer(Some(CommandResponseKind::GetPlayer(Some(player())))),
        answer(Some(CommandResponseKind::GetPlayer(None))),
    ]
}

#[test]
fn every_message_is_read_back_from_its_frame() {
    for message in messages() {
        let frame = message.to_frame();
        assert_eq!(ServerWsMessage::parse(&frame), Some(message), "{}", frame);
    }
}

#[test]
fn every_message_is_read_back_from_its_tree() {
    for message in messages() {
        let tree = message.to_json();
        assert_eq!(ServerWsMessage::from_json(&tree), Some(message));
    }
}

#[test]
fn frames_that_are_no_messages_are_not_read() {
    for frame in [
        "",
        "null",
        "\"Authenticated\"x",
        "{\"Authenticated\":1}",
        "{\"Rcon\":{}}",
        "{\"Rcon\":{\"Log\":{\"timestamp\":-1,\"kind\":{\"MatchStart\":{\"map\":\"m\"}}}}}",
        "{\"Response\":{\"id\":\"1\"}}",
        "{\"Response\":{\"id\":\"1\",\"value\":{\"Execute\":{\"failure\":true}}}}",
        "{\"Response\":{\"id\":\"1\",\"value\":{\"Execute\":{\"failure\":0,\"response\":null}}}}",
        "{\"Unknown\":null}",
    ] {
        assert_eq!(ServerWsMessage::parse(frame), None, "{}", frame);
    }
    // A variant without content may also be written as a string.
    assert_eq!(ServerWsMessage::parse("\"Authenticated\""), Some(ServerWsMessage::Authenticated));
}
