use wise::error::RconError;
use wise::parsing::gamestate::GameState;
use wise::parsing::player::{Player, PlayerId};
use wise::parsing::playerids::parse_playerids;
use wise::parsing::showlog::{parse_logline, parse_loglines, take_match, LogKind, LogLine};
use wise::parsing::utils::{
    format_i64, format_u64, parse_u64, take_duration, take_u64, ParseIntError,
};

fn chars(s: &str) -> Vec<char> {
    s.chars().collect()
}

fn steam(name: &str, id: u64) -> Player {
    Player::new(String::from(name), PlayerId::Steam(id))
}

#[test]
fn numbers_are_parsed_as_a_whole() {
    assert_eq!(parse_u64("0"), Ok(0));
    assert_eq!(parse_u64("007"), Ok(7));
    assert_eq!(parse_u64("+15"), Ok(15));
    assert_eq!(parse_u64("18446744073709551615"), Ok(u64::MAX));
    assert_eq!(parse_u64("18446744073709551616"), Err(ParseIntError::PosOverflow));
    assert_eq!(parse_u64(""), Err(ParseIntError::Empty));
    assert_eq!(parse_u64("+"), Err(ParseIntError::InvalidDigit));
    assert_eq!(parse_u64("-1"), Err(ParseIntError::InvalidDigit));
    assert_eq!(parse_u64("12a"), Err(ParseIntError::InvalidDigit));
    assert_eq!(parse_u64(" 12"), Err(ParseIntError::InvalidDigit));
}

#[test]
fn numbers_are_taken_from_the_head() {
    assert_eq!(take_u64(&chars("123abc"), 0), Some((123, 3)));
    assert_eq!(take_u64(&chars("ab45"), 2), Some((45, 4)));
    assert_eq!(take_u64(&chars("abc"), 0), None);
    assert_eq!(take_u64(&chars("12"), 2), None);
    assert_eq!(take_u64(&chars("99999999999999999999"), 0), None);
}

#[test]
fn durations_are_hours_minutes_seconds() {
    assert_eq!(take_duration(&chars("1:02:03"), 0), Some((3723, 7)));
    assert_eq!(take_duration(&chars("0:00:00 rest"), 0), Some((0, 7)));
    assert_eq!(take_duration(&chars("x10:0:59"), 1), Some((36059, 8)));
    assert_eq!(take_duration(&chars("1:02"), 0), None);
    assert_eq!(take_duration(&chars("1-02-03"), 0), None);
    assert_eq!(take_duration(&chars("18446744073709551615:0:0"), 0), None);
}

#[test]
fn numbers_are_written_in_decimal() {
    assert_eq!(format_u64(0), "0");
    assert_eq!(format_u64(1205), "1205");
    assert_eq!(format_u64(u64::MAX), "18446744073709551615");
    assert_eq!(format_i64(-7), "-7");
    assert_eq!(format_i64(i64::MIN), "-9223372036854775808");
    assert_eq!(format_i64(i64::MAX), "9223372036854775807");
    assert_eq!(parse_u64(&format_u64(987654321)), Ok(987654321));
}

#[test]
fn a_number_is_a_steam_id() {
    assert_eq!(PlayerId::parse("76561198000000000"), PlayerId::Steam(76561198000000000));
    assert_eq!(
        PlayerId::parse("11111111-aaaa-1111-aaaa-111111111111"),
        PlayerId::Windows(String::from("11111111-aaaa-1111-aaaa-111111111111"))
    );
    assert_eq!(PlayerId::parse(""), PlayerId::Windows(String::new()));
    assert_eq!(PlayerId::Steam(42).to_text(), "42");
    assert_eq!(PlayerId::Windows(String::from("abc")).to_text(), "abc");
    assert!(PlayerId::Steam(1).same(&PlayerId::Steam(1)));
    assert!(!PlayerId::Steam(1).same(&PlayerId::Windows(String::from("1"))));
}

#[test]
fn the_game_state_is_read_from_its_report() {
    let text = "Players: Allied: 10 - Axis: 12\nScore: Allied: 2 - Axis: 3\nRemaining Time: 0:41:07\nMap: carentan_warfare\nNext Map: foy_offensive_ger\nmore";
    assert_eq!(
        GameState::parse(text),
        Ok(GameState {
            allied_players: 10,
            axis_players: 12,
            allied_score: 2,
            axis_score: 3,
            remaining_time: 2467,
            map: String::from("carentan_warfare"),
            next_map: String::from("foy_offensive_ger"),
        })
    );
    let empty_map = "Players: Allied: 0 - Axis: 0\nScore: Allied: 0 - Axis: 0\nRemaining Time: 0:00:00\nMap: \nNext Map: x";
    assert_eq!(GameState::parse(empty_map).unwrap().map, "");
}

#[test]
fn a_report_that_is_cut_short_is_a_parsing_error() {
    for text in [
        "",
        "Players: Allied: x - Axis: 12\n",
        "Players: Allied: 10 - Axis: 12\nScore: Allied: 2 - Axis: 3\nRemaining Time: 0:41\nMap: a\nNext Map: b",
        "Players: Allied: 10 - Axis: 12\nScore: Allied: 2 - Axis: 3\nRemaining Time: 0:41:07\nMap: a",
        "Players: Allied: 10 - Axis: 12\nScore: Allied: 2 - Axis: 3\nRemaining Time: 0:41:07\nMap: a\nNext Map: ",
    ] {
        assert!(matches!(GameState::parse(text), Err(RconError::ParsingError(_))));
    }
}

#[test]
fn a_connect_line_is_read() {
    assert_eq!(
        parse_logline("[44.7 sec (1718212472)] CONNECTED Some Name (76561198000000000)\n"),
        Some(LogLine {
            timestamp: 1718212472,
            kind: LogKind::Connect {
                player: steam("Some Name", 76561198000000000),
                has_connected: true
            },
        })
    );
    assert_eq!(
        parse_logline("[1:03 min (5)] DISCONNECTED x (abc)\n"),
        Some(LogLine {
            timestamp: 5,
            kind: LogKind::Connect {
                player: Player::new(String::from("x"), PlayerId::Windows(String::from("abc"))),
                has_connected: false
            },
        })
    );
}

#[test]
fn a_kill_line_is_read() {
    let line = "[1 sec (7)] KILL: Player Name(Allies/76561198000000001) -> Other(Axis/11111111-aaaa-1111-aaaa-111111111111) with M1903 SPRINGFIELD\n";
    assert_eq!(
        parse_logline(line),
        Some(LogLine {
            timestamp: 7,
            kind: LogKind::Kill {
                killer: steam("Player Name", 76561198000000001),
                killer_faction: String::from("Allies"),
                victim: Player::new(
                    String::from("Other"),
                    PlayerId::Windows(String::from("11111111-aaaa-1111-aaaa-111111111111"))
                ),
                victim_faction: String::from("Axis"),
                is_teamkill: false,
                weapon: String::from("M1903 SPRINGFIELD"),
            },
        })
    );
    let line = "[1 sec (8)] TEAM KILL: A(Axis/76561198000000001) -> B(Axis/76561198000000002) with Opel Blitz (Transport) with care\n";
    match parse_logline(line) {
        Some(LogLine { timestamp: 8, kind: LogKind::Kill { is_teamkill, weapon, .. } }) => {
            assert!(is_teamkill);
            // The weapon starts behind the last " with ".
            assert_eq!(weapon, "care");
        }
        other => panic!("{:?}", other),
    }
}

#[test]
fn a_chat_line_is_read() {
    let line = "[1 sec (9)] CHAT[Team][Player(Allies/76561198000000001)]: foo bar\n";
    assert_eq!(
        parse_logline(line),
        Some(LogLine {
            timestamp: 9,
            kind: LogKind::Chat {
                sender: steam("Player", 76561198000000001),
                team: String::from("Allies"),
                reach: String::from("Team"),
                content: String::from("foo bar"),
            },
        })
    );
}

#[test]
fn match_lines_are_read() {
    let (kind, end) =
        take_match(&chars("MATCH START         MATCH START SAINTE-MÈRE-ÉGLISE WARFARE\n")).unwrap();
    assert!(matches!(kind, LogKind::MatchStart { .. }));
    assert_eq!(end, 58);
    if let LogKind::MatchStart { map } = kind {
        assert_eq!(map, "MATCH START SAINTE-MÈRE-ÉGLISE WARFARE");
    }
    let (kind, _) = take_match(&chars(
        "MATCH ENDED         MATCH ENDED `SAINTE-MÈRE-ÉGLISE WARFARE` ALLIED (2 - 2) AXIS\n",
    ))
    .unwrap();
    assert!(matches!(kind, LogKind::MatchEnded { allied_score: 2, axis_score: 2, .. }));
    assert_eq!(
        parse_logline("[38:03 min (1718194470)] MATCH ENDED `CARENTAN WARFARE` ALLIED (5 - 0) AXIS\n"),
        Some(LogLine {
            timestamp: 1718194470,
            kind: LogKind::MatchEnded {
                map: String::from("CARENTAN WARFARE"),
                allied_score: 5,
                axis_score: 0
            },
        })
    );
    assert_eq!(take_match(&chars("MATCH ENDED nothing to find\n")), None);
    assert_eq!(take_match(&chars("MATCH START no end of line")), None);
}

#[test]
fn lines_that_cannot_be_read_give_nothing() {
    assert_eq!(parse_logline(""), None);
    assert_eq!(parse_logline("no prelude\n"), None);
    assert_eq!(parse_logline("[1 sec (7)] SOMETHING ELSE\n"), None);
    assert_eq!(parse_logline("[1 sec (7)] CONNECTED nobody\n"), None);
    assert_eq!(parse_logline("[1 sec (7)] CONNECTED a (b)"), None);
    assert_eq!(parse_logline("[1 sec (7)] KILL: short(Allies/1) -> x(Axis/2) with y\n"), None);
    assert_eq!(parse_logline("[1 sec (99999999999999999999)] CONNECTED a (b)\n"), None);
}

#[test]
fn a_log_is_read_line_by_line() {
    let log = "[1 sec (1)] MATCH START a\nnoise\n[2 sec (2)] UNKNOWN\n[3 sec (3)] MATCH START b\n[4 sec (4)] MATCH START cut";
    assert_eq!(
        parse_loglines(log),
        Ok(vec![
            LogLine { timestamp: 1, kind: LogKind::MatchStart { map: String::from("a") } },
            LogLine { timestamp: 3, kind: LogKind::MatchStart { map: String::from("b") } },
        ])
    );
    assert_eq!(parse_loglines(""), Ok(vec![]));
}

#[test]
fn player_ids_are_read_from_the_list() {
    assert_eq!(
        parse_playerids("2\tSome : Name : 76561198000000000\tOther : abc\t"),
        Ok(vec![
            steam("Some : Name", 76561198000000000),
            Player::new(String::from("Other"), PlayerId::Windows(String::from("abc"))),
        ])
    );
    assert_eq!(parse_playerids("0\t"), Ok(vec![]));
    assert_eq!(parse_playerids(""), Ok(vec![]));
}
