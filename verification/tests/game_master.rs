use wise::events::{GameStateChanges, PlayerChanges, RconEvent};
use wise::parsing::gamestate::GameState;
use wise::parsing::playerinfo::{PlayerData, ScoreData, WorldPosition};
use wise::parsing::showlog::{LogKind, LogLine};
use wise::polling::gamestate::detect_changes;
use wise::polling::utils::detect;
use wise::services::game_master::{detect_player_changes, GameMaster, IncomingState};

fn player(id: &str, kills: u64, deaths: u64, team: i32, role: i32) -> PlayerData {
    PlayerData {
        name: String::from("Someone"),
        clan_tag: String::from("[X]"),
        id: String::from(id),
        platform: String::from("steam"),
        level: 10,
        team,
        eosid: String::from("e"),
        role,
        platoon: String::from("ABLE"),
        kills,
        deaths,
        score: ScoreData { combat: 1, defense: 2, support: 3, offense: 4 },
        world_position: WorldPosition {
            x: String::from("1.5"),
            y: String::from("0"),
            z: String::from("-2"),
        },
        loadout: String::from("Rifleman"),
    }
}

fn state(allied: u64, axis: u64, map: &str, time: u64) -> GameState {
    GameState {
        allied_players: allied,
        axis_players: axis,
        allied_score: 2,
        axis_score: 3,
        remaining_time: time,
        map: String::from(map),
        next_map: String::from("next"),
    }
}

#[test]
fn a_kill_is_reported_as_the_only_change() {
    let mut master = GameMaster::new();
    let first = master.update_state(IncomingState::Players(vec![player("u1", 3, 1, 1, 2)]));
    assert!(first.is_empty());
    let events = master.update_state(IncomingState::Players(vec![player("u1", 4, 1, 1, 2)]));
    assert_eq!(
        events,
        vec![RconEvent::Player {
            old: player("u1", 3, 1, 1, 2),
            new: player("u1", 4, 1, 1, 2),
            changes: vec![PlayerChanges::Kills { old: 3, new: 4 }],
        }]
    );
    assert_eq!(master.player(&String::from("u1")), Some(&player("u1", 4, 1, 1, 2)));
}

#[test]
fn no_event_without_a_change() {
    let mut master = GameMaster::new();
    master.update_player(player("u1", 3, 1, 1, 2));
    assert_eq!(master.update_player(player("u1", 3, 1, 1, 2)), None);
    // The score is not compared.
    let mut other = player("u1", 3, 1, 1, 2);
    other.score.combat = 99;
    other.name = String::from("Renamed");
    assert_eq!(master.update_player(other), None);
    // The latest snapshot is kept all the same.
    assert_eq!(master.player(&String::from("u1")).unwrap().score.combat, 99);
}

#[test]
fn every_listed_change_is_a_field_that_differs() {
    let old = player("u1", 3, 1, 1, 2);
    let mut new = player("u1", 3, 2, 2, 2);
    new.clan_tag = String::from("[Y]");
    new.level = 11;
    new.platoon = String::from("BAKER");
    new.world_position.z = String::from("-2.5");
    new.loadout = String::from("Medic");
    let changes = detect_player_changes(&old, &new);
    assert_eq!(
        changes,
        vec![
            PlayerChanges::ClanTag { old: String::from("[X]"), new: String::from("[Y]") },
            PlayerChanges::Level { old: 10, new: 11 },
            PlayerChanges::Team { old: 1, new: 2 },
            PlayerChanges::Platoon { old: String::from("ABLE"), new: String::from("BAKER") },
            PlayerChanges::Deaths { old: 1, new: 2 },
            PlayerChanges::WorldPosition {
                old: old.world_position.clone(),
                new: new.world_position.clone(),
            },
            PlayerChanges::Loadout { old: String::from("Rifleman"), new: String::from("Medic") },
        ]
    );
    assert!(detect_player_changes(&old, &old).is_empty());
}

#[test]
fn players_are_told_apart_by_id() {
    let mut master = GameMaster::new();
    let events = master.update_state(IncomingState::Players(vec![
        player("u1", 0, 0, 1, 1),
        player("u2", 0, 0, 1, 1),
        player("u1", 1, 0, 1, 1),
    ]));
    assert_eq!(events.len(), 1);
    assert_eq!(master.player(&String::from("u2")), Some(&player("u2", 0, 0, 1, 1)));
    assert_eq!(master.player(&String::from("u3")), None);
}

#[test]
fn the_match_is_diffed_against_the_last_snapshot() {
    let mut master = GameMaster::new();
    assert!(master.current_state().is_none());
    assert!(master.update_state(IncomingState::GameState(state(10, 12, "a", 100))).is_empty());
    // The remaining time alone causes no event.
    assert!(master.update_state(IncomingState::GameState(state(10, 12, "a", 99))).is_empty());
    let events = master.update_state(IncomingState::GameState(state(11, 12, "b", 98)));
    assert_eq!(
        events,
        vec![RconEvent::Game {
            changes: vec![
                GameStateChanges::AlliedPlayers { old: 10, new: 11 },
                GameStateChanges::CurrentMap { old: String::from("a"), new: String::from("b") },
            ],
            new_state: state(11, 12, "b", 98),
        }]
    );
    assert_eq!(master.current_state(), Some(&state(11, 12, "b", 98)));
}

#[test]
fn all_fields_of_the_match_are_compared_in_order() {
    let old = state(1, 2, "a", 5);
    let new = GameState {
        allied_players: 3,
        axis_players: 4,
        allied_score: 0,
        axis_score: 5,
        remaining_time: 5,
        map: String::from("b"),
        next_map: String::from("c"),
    };
    assert_eq!(
        detect_changes(&old, &new),
        vec![
            GameStateChanges::AlliedPlayers { old: 1, new: 3 },
            GameStateChanges::AxisPlayers { old: 2, new: 4 },
            GameStateChanges::AlliedScore { old: 2, new: 0 },
            GameStateChanges::AxisScore { old: 3, new: 5 },
            GameStateChanges::CurrentMap { old: String::from("a"), new: String::from("b") },
            GameStateChanges::NextMap { old: String::from("next"), new: String::from("c") },
        ]
    );
    assert!(detect_changes(&old, &old).is_empty());
}

#[test]
fn log_lines_are_passed_on_in_order() {
    let mut master = GameMaster::new();
    let a = LogLine { timestamp: 1, kind: LogKind::MatchStart { map: String::from("a") } };
    let b = LogLine { timestamp: 2, kind: LogKind::MatchStart { map: String::from("b") } };
    let events = master.update_state(IncomingState::Logs(vec![a.clone(), b.clone()]));
    assert_eq!(events, vec![RconEvent::Log(a), RconEvent::Log(b)]);
}

#[test]
fn detect_pushes_only_on_a_difference() {
    let mut seen: Vec<&str> = Vec::new();
    detect(&mut seen, &1u64, &1u64, "same");
    detect(&mut seen, &1u64, &2u64, "number");
    detect(&mut seen, &String::from("a"), &String::from("b"), "text");
    detect(&mut seen, &-1i32, &-1i32, "same");
    assert_eq!(seen, vec!["number", "text"]);
}
