//! Reading back the messages that the service sends.
//!
//! What the service writes for a message, it reads as that message again.

use vstd::prelude::*;
use crate::commands::{players_from, players_of};
use crate::events::{
    GameStateChanges,
    GameStateChangesView,
    PlayerChanges,
    PlayerChangesView,
    RconEvent,
    RconEventView,
    ScoreKind,
};
use crate::exporting::messages::{
    CommandResponseKind,
    CommandResponseKindView,
    ServerWsMessage,
    ServerWsMessageView,
    ServerWsResponse,
    ServerWsResponseView,
};
use crate::exporting::wire::{
    game_changes_tree,
    old_new,
    player_changes_tree,
    signed,
    unsigned,
    variant,
    variant_of,
};
use crate::json::json_parse;
use crate::messages::{RconResponse, RconResponseView};
use crate::parsing::gamestate::{GameState, GameStateView};
use crate::parsing::player::{Player, PlayerId, PlayerIdView, PlayerView};
use crate::parsing::showlog::{LogKind, LogKindView, LogLine, LogLineView};
use crate::text::str_eq;
use crate::json::{
    lemma_integer_of_digits,
    lemma_member_found,
    lemma_unsigned_of_digits,
    Json,
    JsonView,
};
use crate::parsing::playerinfo::{
    PlayerData,
    PlayerDataView,
    ScoreData,
    WorldPosition,
    WorldPositionView,
};

verus! {

/// A number that was written without sign is read as it was.
pub proof fn lemma_unsigned_round_trip(value: u64)
    ensures
        unsigned(value as nat).as_u64() == Some(value),
        value <= u32::MAX ==> unsigned(value as nat).as_u32() == Some(value as u32),
{
    lemma_unsigned_of_digits(value);
}

/// A number that was written with its sign is read as it was.
pub proof fn lemma_signed_round_trip(value: i64)
    ensures
        signed(value as int).as_i64() == Some(value),
        i32::MIN <= value <= i32::MAX ==> signed(value as int).as_i32() == Some(value as i32),
{
    lemma_integer_of_digits(value);
}

/// What tells one name from another in the objects of the protocol: its
/// length, its first and its last character.
pub open spec fn name_key(name: Seq<char>) -> (nat, char, char) {
    (name.len(), name[0], name[name.len() - 1])
}

/// A score that was written is read as it was.
pub proof fn lemma_score_round_trip(score: ScoreData)
    ensures
        ScoreData::of_tree(score.tree()) == Some(score),
{
    let members = score.tree()->Object_0;
    reveal_strlit("cOMBAT");
    reveal_strlit("defense");
    reveal_strlit("support");
    reveal_strlit("offense");
    assert(name_key("cOMBAT"@) == (6nat, 'c', 'T'));
    assert(name_key("defense"@) == (7nat, 'd', 'e'));
    assert(name_key("support"@) == (7nat, 's', 't'));
    assert(name_key("offense"@) == (7nat, 'o', 'e'));
    lemma_member_found(members, 0);
    lemma_member_found(members, 1);
    lemma_member_found(members, 2);
    lemma_member_found(members, 3);
    lemma_unsigned_round_trip(score.combat as u64);
    lemma_unsigned_round_trip(score.defense as u64);
    lemma_unsigned_round_trip(score.support as u64);
    lemma_unsigned_round_trip(score.offense as u64);
}

/// A position that was written is read as it was.
pub proof fn lemma_position_round_trip(position: WorldPositionView)
    ensures
        WorldPositionView::of_tree(position.tree()) == Some(position),
{
    let members = position.tree()->Object_0;
    reveal_strlit("x");
    reveal_strlit("y");
    reveal_strlit("z");
    assert(name_key("x"@) == (1nat, 'x', 'x'));
    assert(name_key("y"@) == (1nat, 'y', 'y'));
    assert(name_key("z"@) == (1nat, 'z', 'z'));
    lemma_member_found(members, 0);
    lemma_member_found(members, 1);
    lemma_member_found(members, 2);
}

/// A snapshot of a player that was written is read as it was.
pub proof fn lemma_player_data_round_trip(player: PlayerDataView)
    ensures
        PlayerDataView::of_tree(player.tree()) == Some(player),
{
    let members = player.tree()->Object_0;
    reveal_strlit("name");
    reveal_strlit("clanTag");
    reveal_strlit("iD");
    reveal_strlit("platform");
    reveal_strlit("level");
    reveal_strlit("team");
    reveal_strlit("eOSId");
    reveal_strlit("role");
    reveal_strlit("platoon");
    reveal_strlit("kills");
    reveal_strlit("deaths");
    reveal_strlit("scoreData");
    reveal_strlit("worldPosition");
    reveal_strlit("loadout");
    assert(name_key("name"@) == (4nat, 'n', 'e'));
    assert(name_key("clanTag"@) == (7nat, 'c', 'g'));
    assert(name_key("iD"@) == (2nat, 'i', 'D'));
    assert(name_key("platform"@) == (8nat, 'p', 'm'));
    assert(name_key("level"@) == (5nat, 'l', 'l'));
    assert(name_key("team"@) == (4nat, 't', 'm'));
    assert(name_key("eOSId"@) == (5nat, 'e', 'd'));
    assert(name_key("role"@) == (4nat, 'r', 'e'));
    assert(name_key("platoon"@) == (7nat, 'p', 'n'));
    assert(name_key("kills"@) == (5nat, 'k', 's'));
    assert(name_key("deaths"@) == (6nat, 'd', 's'));
    assert(name_key("scoreData"@) == (9nat, 's', 'a'));
    assert(name_key("worldPosition"@) == (13nat, 'w', 'n'));
    assert(name_key("loadout"@) == (7nat, 'l', 't'));
    lemma_member_found(members, 0);
    lemma_member_found(members, 1);
    lemma_member_found(members, 2);
    lemma_member_found(members, 3);
    lemma_member_found(members, 4);
    lemma_member_found(members, 5);
    lemma_member_found(members, 6);
    lemma_member_found(members, 7);
    lemma_member_found(members, 8);
    lemma_member_found(members, 9);
    lemma_member_found(members, 10);
    lemma_member_found(members, 11);
    lemma_member_found(members, 12);
    lemma_member_found(members, 13);
    lemma_signed_round_trip(player.level as i64);
    lemma_signed_round_trip(player.team as i64);
    lemma_signed_round_trip(player.role as i64);
    lemma_unsigned_round_trip(player.kills);
    lemma_unsigned_round_trip(player.deaths);
    lemma_score_round_trip(player.score);
    lemma_position_round_trip(player.world_position);
}

/// The values that the items of an array hold, if each of them holds one.
pub open spec fn list_of<A>(items: Seq<JsonView>, read: spec_fn(JsonView) -> Option<A>) -> Option<
    Seq<A>,
> {
    if forall|i: int| 0 <= i < items.len() ==> read(#[trigger] items[i]) is Some {
        Some(Seq::new(items.len(), |i: int| read(items[i]).unwrap()))
    } else {
        None
    }
}

/// A list whose items are read as they were written is read as it was written.
pub proof fn lemma_list_round_trip<A>(
    values: Seq<A>,
    write: spec_fn(A) -> JsonView,
    read: spec_fn(JsonView) -> Option<A>,
)
    requires
        forall|i: int| 0 <= i < values.len() ==> read(write(#[trigger] values[i])) == Some(values[i]),
    ensures
        list_of(values.map_values(write), read) == Some(values),
{
    let items = values.map_values(write);
    assert forall|i: int| 0 <= i < items.len() implies read(#[trigger] items[i]) is Some by {}
    assert(list_of(items, read).unwrap() =~= values) by {
        assert forall|i: int| 0 <= i < values.len() implies list_of(items, read).unwrap()[i]
            == values[i] by {}
    }
}

impl GameStateView {
    /// The seconds that the member `remaining_time` of `tree` holds.
    pub open spec fn time_of(tree: JsonView) -> Option<u64> {
        match tree.member("remaining_time"@) {
            Some(time) => time.u64_of("secs"@),
            None => None,
        }
    }

    /// Whether `tree` has every member of a game state, each of its kind.
    pub open spec fn is_game_state(tree: JsonView) -> bool {
        &&& tree.u64_of("allied_players"@) is Some
        &&& tree.u64_of("axis_players"@) is Some
        &&& tree.u64_of("allied_score"@) is Some
        &&& tree.u64_of("axis_score"@) is Some
        &&& GameStateView::time_of(tree) is Some
        &&& tree.text_of("map"@) is Some
        &&& tree.text_of("next_map"@) is Some
    }

    /// The game state that a JSON value holds.
    pub open spec fn of_tree(tree: JsonView) -> Option<GameStateView> {
        if GameStateView::is_game_state(tree) {
            Some(
                GameStateView {
                    allied_players: tree.u64_of("allied_players"@).unwrap(),
                    axis_players: tree.u64_of("axis_players"@).unwrap(),
                    allied_score: tree.u64_of("allied_score"@).unwrap(),
                    axis_score: tree.u64_of("axis_score"@).unwrap(),
                    remaining_time: GameStateView::time_of(tree).unwrap(),
                    map: tree.text_of("map"@).unwrap(),
                    next_map: tree.text_of("next_map"@).unwrap(),
                },
            )
        } else {
            None
        }
    }
}

impl GameState {
    /// Reads a game state from a JSON value.
    pub fn from_json(tree: &Json) -> (state: Option<GameState>)
        ensures
            match state {
                Some(s) => GameStateView::of_tree(tree@) == Some(s@),
                None => GameStateView::of_tree(tree@) is None,
            },
    {
        let allied_players = match tree.u64_of("allied_players") {
            Some(v) => v,
            None => {
                return None;
            },
        };
        let axis_players = match tree.u64_of("axis_players") {
            Some(v) => v,
            None => {
                return None;
            },
        };
        let allied_score = match tree.u64_of("allied_score") {
            Some(v) => v,
            None => {
                return None;
            },
        };
        let axis_score = match tree.u64_of("axis_score") {
            Some(v) => v,
            None => {
                return None;
            },
        };
        let remaining_time = match tree.get("remaining_time") {
            Some(time) => match time.u64_of("secs") {
                Some(v) => v,
                None => {
                    return None;
                },
            },
            None => {
                return None;
            },
        };
        let map = match tree.text_of("map") {
            Some(v) => v,
            None => {
                return None;
            },
        };
        let next_map = match tree.text_of("next_map") {
            Some(v) => v,
            None => {
                return None;
            },
        };
        Some(
            GameState {
                allied_players,
                axis_players,
                allied_score,
                axis_score,
                remaining_time,
                map,
                next_map,
            },
        )
    }
}

/// A game state that was written is read as it was.
pub proof fn lemma_game_state_round_trip(state: GameStateView)
    ensures
        GameStateView::of_tree(state.tree()) == Some(state),
{
    let members = state.tree()->Object_0;
    reveal_strlit("allied_players");
    reveal_strlit("axis_players");
    reveal_strlit("allied_score");
    reveal_strlit("axis_score");
    reveal_strlit("remaining_time");
    reveal_strlit("map");
    reveal_strlit("next_map");
    reveal_strlit("secs");
    reveal_strlit("nanos");
    assert(name_key("allied_players"@) == (14nat, 'a', 's'));
    assert(name_key("axis_players"@) == (12nat, 'a', 's'));
    assert(name_key("allied_score"@) == (12nat, 'a', 'e'));
    assert(name_key("axis_score"@) == (10nat, 'a', 'e'));
    assert(name_key("remaining_time"@) == (14nat, 'r', 'e'));
    assert(name_key("map"@) == (3nat, 'm', 'p'));
    assert(name_key("next_map"@) == (8nat, 'n', 'p'));
    assert(name_key("secs"@) == (4nat, 's', 's'));
    assert(name_key("nanos"@) == (5nat, 'n', 's'));
    lemma_member_found(members, 0);
    lemma_member_found(members, 1);
    lemma_member_found(members, 2);
    lemma_member_found(members, 3);
    lemma_member_found(members, 4);
    lemma_member_found(members, 5);
    lemma_member_found(members, 6);
    let time = members[4].1->Object_0;
    lemma_member_found(time, 0);
    lemma_unsigned_round_trip(state.allied_players);
    lemma_unsigned_round_trip(state.axis_players);
    lemma_unsigned_round_trip(state.allied_score);
    lemma_unsigned_round_trip(state.axis_score);
    lemma_unsigned_round_trip(state.remaining_time);
}

impl PlayerIdView {
    /// The id that a JSON value holds.
    pub open spec fn of_tree(tree: JsonView) -> Option<PlayerIdView> {
        match variant_of(tree) {
            Some((tag, content)) => if tag == "Steam"@ {
                match content.as_u64() {
                    Some(id) => Some(PlayerIdView::Steam(id)),
                    None => None,
                }
            } else if tag == "Windows"@ {
                match content.as_text() {
                    Some(id) => Some(PlayerIdView::Windows(id)),
                    None => None,
                }
            } else {
                None
            },
            None => None,
        }
    }
}

impl PlayerId {
    /// Reads an id from a JSON value.
    pub fn from_json(tree: &Json) -> (id: Option<PlayerId>)
        ensures
            match id {
                Some(i) => PlayerIdView::of_tree(tree@) == Some(i@),
                None => PlayerIdView::of_tree(tree@) is None,
            },
    {
        let (tag, content) = match variant(tree) {
            Some(found) => found,
            None => {
                return None;
            },
        };
        let null = Json::Null;
        let content = match content {
            Some(content) => content,
            None => &null,
        };
        if str_eq(tag.as_str(), "Steam") {
            match content.as_u64() {
                Some(id) => Some(PlayerId::Steam(id)),
                None => None,
            }
        } else if str_eq(tag.as_str(), "Windows") {
            match content.as_str() {
                Some(id) => Some(PlayerId::Windows(id.clone())),
                None => None,
            }
        } else {
            None
        }
    }
}

/// An id that was written is read as it was.
pub proof fn lemma_player_id_round_trip(id: PlayerIdView)
    ensures
        PlayerIdView::of_tree(id.tree()) == Some(id),
{
    reveal_strlit("Steam");
    reveal_strlit("Windows");
    assert(name_key("Steam"@) == (5nat, 'S', 'm'));
    assert(name_key("Windows"@) == (7nat, 'W', 's'));
    match id {
        PlayerIdView::Steam(number) => {
            lemma_unsigned_round_trip(number);
        },
        PlayerIdView::Windows(_) => {},
    }
}

impl PlayerView {
    /// The player that a JSON value holds.
    pub open spec fn of_tree(tree: JsonView) -> Option<PlayerView> {
        match (tree.text_of("name"@), tree.member("id"@)) {
            (Some(name), Some(id)) => match PlayerIdView::of_tree(id) {
                Some(id) => Some(PlayerView { name, id }),
                None => None,
            },
            _ => None,
        }
    }

    /// The player that the member `name` of `tree` holds.
    pub open spec fn member_of(tree: JsonView, name: Seq<char>) -> Option<PlayerView> {
        match tree.member(name) {
            Some(player) => PlayerView::of_tree(player),
            None => None,
        }
    }
}

impl Player {
    /// Reads a player from a JSON value.
    pub fn from_json(tree: &Json) -> (player: Option<Player>)
        ensures
            match player {
                Some(p) => PlayerView::of_tree(tree@) == Some(p@),
                None => PlayerView::of_tree(tree@) is None,
            },
    {
        let name = match tree.text_of("name") {
            Some(name) => name,
            None => {
                return None;
            },
        };
        let id = match tree.get("id") {
            Some(id) => id,
            None => {
                return None;
            },
        };
        match PlayerId::from_json(id) {
            Some(id) => Some(Player { name, id }),
            None => None,
        }
    }

    /// Reads the player that the member `name` of `tree` holds.
    pub fn member_of(tree: &Json, name: &str) -> (player: Option<Player>)
        ensures
            match player {
                Some(p) => PlayerView::member_of(tree@, name@) == Some(p@),
                None => PlayerView::member_of(tree@, name@) is None,
            },
    {
        match tree.get(name) {
            Some(player) => Player::from_json(player),
            None => None,
        }
    }
}

/// A player that was written is read as it was.
pub proof fn lemma_player_round_trip(player: PlayerView)
    ensures
        PlayerView::of_tree(player.tree()) == Some(player),
{
    let members = player.tree()->Object_0;
    reveal_strlit("name");
    reveal_strlit("id");
    assert(name_key("name"@) == (4nat, 'n', 'e'));
    assert(name_key("id"@) == (2nat, 'i', 'd'));
    lemma_member_found(members, 0);
    lemma_member_found(members, 1);
    lemma_player_id_round_trip(player.id);
}

impl LogKindView {
    /// The connection that the content of the variant holds.
    pub open spec fn connect_of(content: JsonView) -> Option<LogKindView> {
        match (PlayerView::member_of(content, "player"@), content.bool_of("has_connected"@)) {
            (Some(player), Some(has_connected)) => Some(
                LogKindView::Connect { player, has_connected },
            ),
            _ => None,
        }
    }

    /// The change of teams that the content of the variant holds.
    pub open spec fn team_switch_of(content: JsonView) -> Option<LogKindView> {
        match (
            PlayerView::member_of(content, "player"@),
            content.text_of("old_team"@),
            content.text_of("new_team"@),
        ) {
            (Some(player), Some(old_team), Some(new_team)) => Some(
                LogKindView::TeamSwitch { player, old_team, new_team },
            ),
            _ => None,
        }
    }

    /// The kill that the content of the variant holds.
    pub open spec fn kill_of_tree(content: JsonView) -> Option<LogKindView> {
        match (
            PlayerView::member_of(content, "killer"@),
            content.text_of("killer_faction"@),
            PlayerView::member_of(content, "victim"@),
            content.text_of("victim_faction"@),
            content.bool_of("is_teamkill"@),
            content.text_of("weapon"@),
        ) {
            (
                Some(killer),
                Some(killer_faction),
                Some(victim),
                Some(victim_faction),
                Some(is_teamkill),
                Some(weapon),
            ) => Some(
                LogKindView::Kill {
                    killer,
                    killer_faction,
                    victim,
                    victim_faction,
                    is_teamkill,
                    weapon,
                },
            ),
            _ => None,
        }
    }

    /// The end of a match that the content of the variant holds.
    pub open spec fn match_ended_of_tree(content: JsonView) -> Option<LogKindView> {
        match (
            content.text_of("map"@),
            content.u64_of("allied_score"@),
            content.u64_of("axis_score"@),
        ) {
            (Some(map), Some(allied_score), Some(axis_score)) => Some(
                LogKindView::MatchEnded { map, allied_score, axis_score },
            ),
            _ => None,
        }
    }

    /// The chat message that the content of the variant holds.
    pub open spec fn chat_of(content: JsonView) -> Option<LogKindView> {
        match (
            PlayerView::member_of(content, "sender"@),
            content.text_of("team"@),
            content.text_of("reach"@),
            content.text_of("content"@),
        ) {
            (Some(sender), Some(team), Some(reach), Some(text)) => Some(
                LogKindView::Chat { sender, team, reach, content: text },
            ),
            _ => None,
        }
    }

    /// What a line reports, as a JSON value holds it.
    pub open spec fn of_tree(tree: JsonView) -> Option<LogKindView> {
        match variant_of(tree) {
            Some((tag, content)) => if tag == "Connect"@ {
                LogKindView::connect_of(content)
            } else if tag == "TeamSwitch"@ {
                LogKindView::team_switch_of(content)
            } else if tag == "Kill"@ {
                LogKindView::kill_of_tree(content)
            } else if tag == "MatchStart"@ {
                match content.text_of("map"@) {
                    Some(map) => Some(LogKindView::MatchStart { map }),
                    None => None,
                }
            } else if tag == "MatchEnded"@ {
                LogKindView::match_ended_of_tree(content)
            } else if tag == "Chat"@ {
                LogKindView::chat_of(content)
            } else {
                None
            },
            None => None,
        }
    }
}

impl LogKind {
    fn connect_from(content: &Json) -> (r: Option<LogKind>)
        ensures
            match r {
                Some(k) => LogKindView::connect_of(content@) == Some(k@),
                None => LogKindView::connect_of(content@) is None,
            },
    {
        match (Player::member_of(content, "player"), content.bool_of("has_connected")) {
            (Some(player), Some(has_connected)) => Some(LogKind::Connect { player, has_connected }),
            _ => None,
        }
    }

    fn team_switch_from(content: &Json) -> (r: Option<LogKind>)
        ensures
            match r {
                Some(k) => LogKindView::team_switch_of(content@) == Some(k@),
                None => LogKindView::team_switch_of(content@) is None,
            },
    {
        match (
            Player::member_of(content, "player"),
            content.text_of("old_team"),
            content.text_of("new_team"),
        ) {
            (Some(player), Some(old_team), Some(new_team)) => Some(
                LogKind::TeamSwitch { player, old_team, new_team },
            ),
            _ => None,
        }
    }

    fn kill_from(content: &Json) -> (r: Option<LogKind>)
        ensures
            match r {
                Some(k) => LogKindView::kill_of_tree(content@) == Some(k@),
                None => LogKindView::kill_of_tree(content@) is None,
            },
    {
        match (
            Player::member_of(content, "killer"),
            content.text_of("killer_faction"),
            Player::member_of(content, "victim"),
            content.text_of("victim_faction"),
            content.bool_of("is_teamkill"),
            content.text_of("weapon"),
        ) {
            (
                Some(killer),
                Some(killer_faction),
                Some(victim),
                Some(victim_faction),
                Some(is_teamkill),
                Some(weapon),
            ) => Some(
                LogKind::Kill { killer, killer_faction, victim, victim_faction, is_teamkill, weapon },
            ),
            _ => None,
        }
    }

    fn match_ended_from(content: &Json) -> (r: Option<LogKind>)
        ensures
            match r {
                Some(k) => LogKindView::match_ended_of_tree(content@) == Some(k@),
                None => LogKindView::match_ended_of_tree(content@) is None,
            },
    {
        match (
            content.text_of("map"),
            content.u64_of("allied_score"),
            content.u64_of("axis_score"),
        ) {
            (Some(map), Some(allied_score), Some(axis_score)) => Some(
                LogKind::MatchEnded { map, allied_score, axis_score },
            ),
            _ => None,
        }
    }

    fn chat_from(content: &Json) -> (r: Option<LogKind>)
        ensures
            match r {
                Some(k) => LogKindView::chat_of(content@) == Some(k@),
                None => LogKindView::chat_of(content@) is None,
            },
    {
        match (
            Player::member_of(content, "sender"),
            content.text_of("team"),
            content.text_of("reach"),
            content.text_of("content"),
        ) {
            (Some(sender), Some(team), Some(reach), Some(text)) => Some(
                LogKind::Chat { sender, team, reach, content: text },
            ),
            _ => None,
        }
    }

    /// Reads what a line reports from a JSON value.
    pub fn from_json(tree: &Json) -> (kind: Option<LogKind>)
        ensures
            match kind {
                Some(k) => LogKindView::of_tree(tree@) == Some(k@),
                None => LogKindView::of_tree(tree@) is None,
            },
    {
        let (tag, content) = match variant(tree) {
            Some(found) => found,
            None => {
                return None;
            },
        };
        let null = Json::Null;
        let content = match content {
            Some(content) => content,
            None => &null,
        };
        let tag = tag.as_str();
        if str_eq(tag, "Connect") {
            LogKind::connect_from(content)
        } else if str_eq(tag, "TeamSwitch") {
            LogKind::team_switch_from(content)
        } else if str_eq(tag, "Kill") {
            LogKind::kill_from(content)
        } else if str_eq(tag, "MatchStart") {
            match content.text_of("map") {
                Some(map) => Some(LogKind::MatchStart { map }),
                None => None,
            }
        } else if str_eq(tag, "MatchEnded") {
            LogKind::match_ended_from(content)
        } else if str_eq(tag, "Chat") {
            LogKind::chat_from(content)
        } else {
            None
        }
    }
}

proof fn lemma_log_kind_tags()
    ensures
        name_key("Connect"@) == (7nat, 'C', 't'),
        name_key("TeamSwitch"@) == (10nat, 'T', 'h'),
        name_key("Kill"@) == (4nat, 'K', 'l'),
        name_key("MatchStart"@) == (10nat, 'M', 't'),
        name_key("MatchEnded"@) == (10nat, 'M', 'd'),
        name_key("Chat"@) == (4nat, 'C', 't'),
{
    reveal_strlit("Connect");
    reveal_strlit("TeamSwitch");
    reveal_strlit("Kill");
    reveal_strlit("MatchStart");
    reveal_strlit("MatchEnded");
    reveal_strlit("Chat");
}

/// What a line reports is read as it was written.
pub proof fn lemma_log_kind_round_trip(kind: LogKindView)
    ensures
        LogKindView::of_tree(kind.tree()) == Some(kind),
{
    lemma_log_kind_tags();
    let content = kind.tree()->Object_0[0].1;
    let members = content->Object_0;
    match kind {
        LogKindView::Connect { player, has_connected } => {
            reveal_strlit("player");
            reveal_strlit("has_connected");
            assert(name_key("player"@) == (6nat, 'p', 'r'));
            assert(name_key("has_connected"@) == (13nat, 'h', 'd'));
            lemma_member_found(members, 0);
            lemma_member_found(members, 1);
            lemma_player_round_trip(player);
        },
        LogKindView::TeamSwitch { player, old_team, new_team } => {
            reveal_strlit("player");
            reveal_strlit("old_team");
            reveal_strlit("new_team");
            assert(name_key("player"@) == (6nat, 'p', 'r'));
            assert(name_key("old_team"@) == (8nat, 'o', 'm'));
            assert(name_key("new_team"@) == (8nat, 'n', 'm'));
            lemma_member_found(members, 0);
            lemma_member_found(members, 1);
            lemma_member_found(members, 2);
            lemma_player_round_trip(player);
        },
        LogKindView::Kill {
            killer,
            killer_faction,
            victim,
            victim_faction,
            is_teamkill,
            weapon,
        } => {
            reveal_strlit("killer");
            reveal_strlit("killer_faction");
            reveal_strlit("victim");
            reveal_strlit("victim_faction");
            reveal_strlit("is_teamkill");
            reveal_strlit("weapon");
            assert(name_key("killer"@) == (6nat, 'k', 'r'));
            assert(name_key("killer_faction"@) == (14nat, 'k', 'n'));
            assert(name_key("victim"@) == (6nat, 'v', 'm'));
            assert(name_key("victim_faction"@) == (14nat, 'v', 'n'));
            assert(name_key("is_teamkill"@) == (11nat, 'i', 'l'));
            assert(name_key("weapon"@) == (6nat, 'w', 'n'));
            lemma_member_found(members, 0);
            lemma_member_found(members, 1);
            lemma_member_found(members, 2);
            lemma_member_found(members, 3);
            lemma_member_found(members, 4);
            lemma_member_found(members, 5);
            lemma_player_round_trip(killer);
            lemma_player_round_trip(victim);
        },
        LogKindView::MatchStart { map } => {
            lemma_member_found(members, 0);
        },
        LogKindView::MatchEnded { map, allied_score, axis_score } => {
            reveal_strlit("map");
            reveal_strlit("allied_score");
            reveal_strlit("axis_score");
            assert(name_key("map"@) == (3nat, 'm', 'p'));
            assert(name_key("allied_score"@) == (12nat, 'a', 'e'));
            assert(name_key("axis_score"@) == (10nat, 'a', 'e'));
            lemma_member_found(members, 0);
            lemma_member_found(members, 1);
            lemma_member_found(members, 2);
            lemma_unsigned_round_trip(allied_score);
            lemma_unsigned_round_trip(axis_score);
        },
        LogKindView::Chat { sender, team, reach, content: text } => {
            reveal_strlit("sender");
            reveal_strlit("team");
            reveal_strlit("reach");
            reveal_strlit("content");
            assert(name_key("sender"@) == (6nat, 's', 'r'));
            assert(name_key("team"@) == (4nat, 't', 'm'));
            assert(name_key("reach"@) == (5nat, 'r', 'h'));
            assert(name_key("content"@) == (7nat, 'c', 't'));
            lemma_member_found(members, 0);
            lemma_member_found(members, 1);
            lemma_member_found(members, 2);
            lemma_member_found(members, 3);
            lemma_player_round_trip(sender);
        },
    }
}

impl LogLineView {
    /// The line that a JSON value holds.
    pub open spec fn of_tree(tree: JsonView) -> Option<LogLineView> {
        match (tree.u64_of("timestamp"@), tree.member("kind"@)) {
            (Some(timestamp), Some(kind)) => match LogKindView::of_tree(kind) {
                Some(kind) => Some(LogLineView { timestamp, kind }),
                None => None,
            },
            _ => None,
        }
    }
}

impl LogLine {
    /// Reads a line from a JSON value.
    pub fn from_json(tree: &Json) -> (line: Option<LogLine>)
        ensures
            match line {
                Some(l) => LogLineView::of_tree(tree@) == Some(l@),
                None => LogLineView::of_tree(tree@) is None,
            },
    {
        let timestamp = match tree.u64_of("timestamp") {
            Some(v) => v,
            None => {
                return None;
            },
        };
        let kind = match tree.get("kind") {
            Some(kind) => kind,
            None => {
                return None;
            },
        };
        match LogKind::from_json(kind) {
            Some(kind) => Some(LogLine { timestamp, kind }),
            None => None,
        }
    }
}

/// A line that was written is read as it was.
pub proof fn lemma_log_line_round_trip(line: LogLineView)
    ensures
        LogLineView::of_tree(line.tree()) == Some(line),
{
    let members = line.tree()->Object_0;
    reveal_strlit("timestamp");
    reveal_strlit("kind");
    assert(name_key("timestamp"@) == (9nat, 't', 'p'));
    assert(name_key("kind"@) == (4nat, 'k', 'd'));
    lemma_member_found(members, 0);
    lemma_member_found(members, 1);
    lemma_unsigned_round_trip(line.timestamp);
    lemma_log_kind_round_trip(line.kind);
}

impl ScoreKind {
    /// The category with the given name.
    pub open spec fn of_name(name: Seq<char>) -> Option<ScoreKind> {
        if name == "Combat"@ {
            Some(ScoreKind::Combat)
        } else if name == "Offense"@ {
            Some(ScoreKind::Offense)
        } else if name == "Defense"@ {
            Some(ScoreKind::Defense)
        } else if name == "Support"@ {
            Some(ScoreKind::Support)
        } else {
            None
        }
    }

    /// The category that a JSON value holds: a string with its name.
    pub open spec fn of_tree(tree: JsonView) -> Option<ScoreKind> {
        match tree {
            JsonView::Text(name) => ScoreKind::of_name(name),
            _ => None,
        }
    }

    /// Reads a category from a JSON value.
    pub fn from_json(tree: &Json) -> (kind: Option<ScoreKind>)
        ensures
            kind == ScoreKind::of_tree(tree@),
    {
        match tree.as_str() {
            Some(name) => {
                let name = name.as_str();
                if str_eq(name, "Combat") {
                    Some(ScoreKind::Combat)
                } else if str_eq(name, "Offense") {
                    Some(ScoreKind::Offense)
                } else if str_eq(name, "Defense") {
                    Some(ScoreKind::Defense)
                } else if str_eq(name, "Support") {
                    Some(ScoreKind::Support)
                } else {
                    None
                }
            },
            None => None,
        }
    }
}

/// A category that was written is read as it was.
pub proof fn lemma_score_kind_round_trip(kind: ScoreKind)
    ensures
        ScoreKind::of_tree(JsonView::Text(kind.name())) == Some(kind),
{
    reveal_strlit("Combat");
    reveal_strlit("Offense");
    reveal_strlit("Defense");
    reveal_strlit("Support");
    assert(name_key("Combat"@) == (6nat, 'C', 't'));
    assert(name_key("Offense"@) == (7nat, 'O', 'e'));
    assert(name_key("Defense"@) == (7nat, 'D', 'e'));
    assert(name_key("Support"@) == (7nat, 'S', 't'));
}

/// The two values of the members `old` and `new`.
pub open spec fn old_new_of<A>(content: JsonView, read: spec_fn(JsonView) -> Option<A>) -> Option<
    (A, A),
> {
    match (content.member("old"@), content.member("new"@)) {
        (Some(old), Some(new)) => match (read(old), read(new)) {
            (Some(old), Some(new)) => Some((old, new)),
            _ => None,
        },
        _ => None,
    }
}

/// The two members `old` and `new` are read as they were written.
pub proof fn lemma_old_new_round_trip<A>(
    old: A,
    new: A,
    write: spec_fn(A) -> JsonView,
    read: spec_fn(JsonView) -> Option<A>,
)
    requires
        read(write(old)) == Some(old),
        read(write(new)) == Some(new),
    ensures
        old_new_of(old_new(write(old), write(new)), read) == Some((old, new)),
{
    let members = old_new(write(old), write(new))->Object_0;
    reveal_strlit("old");
    reveal_strlit("new");
    assert(name_key("old"@) == (3nat, 'o', 'd'));
    assert(name_key("new"@) == (3nat, 'n', 'w'));
    lemma_member_found(members, 0);
    lemma_member_found(members, 1);
}

/// The two unsigned numbers of the members `old` and `new`.
fn unsigned_pair(content: &Json) -> (r: Option<(u64, u64)>)
    ensures
        r == old_new_of(content@, |t: JsonView| t.as_u64()),
{
    match (content.u64_of("old"), content.u64_of("new")) {
        (Some(old), Some(new)) => Some((old, new)),
        _ => None,
    }
}

/// The two signed numbers of the members `old` and `new`.
fn signed_pair(content: &Json) -> (r: Option<(i32, i32)>)
    ensures
        r == old_new_of(content@, |t: JsonView| t.as_i32()),
{
    match (content.i32_of("old"), content.i32_of("new")) {
        (Some(old), Some(new)) => Some((old, new)),
        _ => None,
    }
}

/// The two strings of the members `old` and `new`.
fn string_pair(content: &Json) -> (r: Option<(String, String)>)
    ensures
        match r {
            Some((old, new)) => old_new_of(content@, |t: JsonView| t.as_text()) == Some(
                (old@, new@),
            ),
            None => old_new_of(content@, |t: JsonView| t.as_text()) is None,
        },
{
    match (content.text_of("old"), content.text_of("new")) {
        (Some(old), Some(new)) => Some((old, new)),
        _ => None,
    }
}

/// The two positions of the members `old` and `new`.
fn position_pair(content: &Json) -> (r: Option<(WorldPosition, WorldPosition)>)
    ensures
        match r {
            Some((old, new)) => old_new_of(content@, |t: JsonView| WorldPositionView::of_tree(t))
                == Some((old@, new@)),
            None => old_new_of(content@, |t: JsonView| WorldPositionView::of_tree(t)) is None,
        },
{
    match (content.get("old"), content.get("new")) {
        (Some(old), Some(new)) => match (
            WorldPosition::from_json(old),
            WorldPosition::from_json(new),
        ) {
            (Some(old), Some(new)) => Some((old, new)),
            _ => None,
        },
        _ => None,
    }
}

impl GameStateChangesView {
    /// The change that a JSON value holds.
    pub open spec fn of_tree(tree: JsonView) -> Option<GameStateChangesView> {
        match variant_of(tree) {
            Some((tag, content)) => {
                let numbers = old_new_of(content, |t: JsonView| t.as_u64());
                let texts = old_new_of(content, |t: JsonView| t.as_text());
                if tag == "AlliedPlayers"@ {
                    match numbers {
                        Some((old, new)) => Some(GameStateChangesView::AlliedPlayers { old, new }),
                        None => None,
                    }
                } else if tag == "AxisPlayers"@ {
                    match numbers {
                        Some((old, new)) => Some(GameStateChangesView::AxisPlayers { old, new }),
                        None => None,
                    }
                } else if tag == "AlliedScore"@ {
                    match numbers {
                        Some((old, new)) => Some(GameStateChangesView::AlliedScore { old, new }),
                        None => None,
                    }
                } else if tag == "AxisScore"@ {
                    match numbers {
                        Some((old, new)) => Some(GameStateChangesView::AxisScore { old, new }),
                        None => None,
                    }
                } else if tag == "Map"@ {
                    match texts {
                        Some((old, new)) => Some(GameStateChangesView::CurrentMap { old, new }),
                        None => None,
                    }
                } else if tag == "NextMap"@ {
                    match texts {
                        Some((old, new)) => Some(GameStateChangesView::NextMap { old, new }),
                        None => None,
                    }
                } else {
                    None
                }
            },
            None => None,
        }
    }
}

impl GameStateChanges {
    /// Reads a change from a JSON value.
    pub fn from_json(tree: &Json) -> (change: Option<GameStateChanges>)
        ensures
            match change {
                Some(c) => GameStateChangesView::of_tree(tree@) == Some(c@),
                None => GameStateChangesView::of_tree(tree@) is None,
            },
    {
        let (tag, content) = match variant(tree) {
            Some(found) => found,
            None => {
                return None;
            },
        };
        let null = Json::Null;
        let content = match content {
            Some(content) => content,
            None => &null,
        };
        let tag = tag.as_str();
        if str_eq(tag, "AlliedPlayers") {
            match unsigned_pair(content) {
                Some((old, new)) => Some(GameStateChanges::AlliedPlayers { old, new }),
                None => None,
            }
        } else if str_eq(tag, "AxisPlayers") {
            match unsigned_pair(content) {
                Some((old, new)) => Some(GameStateChanges::AxisPlayers { old, new }),
                None => None,
            }
        } else if str_eq(tag, "AlliedScore") {
            match unsigned_pair(content) {
                Some((old, new)) => Some(GameStateChanges::AlliedScore { old, new }),
                None => None,
            }
        } else if str_eq(tag, "AxisScore") {
            match unsigned_pair(content) {
                Some((old, new)) => Some(GameStateChanges::AxisScore { old, new }),
                None => None,
            }
        } else if str_eq(tag, "Map") {
            match string_pair(content) {
                Some((old, new)) => Some(GameStateChanges::CurrentMap { old, new }),
                None => None,
            }
        } else if str_eq(tag, "NextMap") {
            match string_pair(content) {
                Some((old, new)) => Some(GameStateChanges::NextMap { old, new }),
                None => None,
            }
        } else {
            None
        }
    }
}

/// A change of the match that was written is read as it was.
pub proof fn lemma_game_change_round_trip(change: GameStateChangesView)
    ensures
        GameStateChangesView::of_tree(change.tree()) == Some(change),
{
    reveal_strlit("AlliedPlayers");
    reveal_strlit("AxisPlayers");
    reveal_strlit("AlliedScore");
    reveal_strlit("AxisScore");
    reveal_strlit("Map");
    reveal_strlit("NextMap");
    assert(name_key("AlliedPlayers"@) == (13nat, 'A', 's'));
    assert(name_key("AxisPlayers"@) == (11nat, 'A', 's'));
    assert(name_key("AlliedScore"@) == (11nat, 'A', 'e'));
    assert(name_key("AxisScore"@) == (9nat, 'A', 'e'));
    assert(name_key("Map"@) == (3nat, 'M', 'p'));
    assert(name_key("NextMap"@) == (7nat, 'N', 'p'));
    let number = |v: u64| unsigned(v as nat);
    let read_number = |t: JsonView| t.as_u64();
    let text = |v: Seq<char>| JsonView::Text(v);
    let read_text = |t: JsonView| t.as_text();
    match change {
        GameStateChangesView::AlliedPlayers { old, new }
        | GameStateChangesView::AxisPlayers { old, new }
        | GameStateChangesView::AlliedScore { old, new }
        | GameStateChangesView::AxisScore { old, new } => {
            lemma_unsigned_round_trip(old);
            lemma_unsigned_round_trip(new);
            lemma_old_new_round_trip(old, new, number, read_number);
        },
        GameStateChangesView::CurrentMap { old, new }
        | GameStateChangesView::NextMap { old, new } => {
            lemma_old_new_round_trip(old, new, text, read_text);
        },
    }
}

impl PlayerChangesView {
    /// The change of a score that the content of the variant holds.
    pub open spec fn score_of(content: JsonView) -> Option<PlayerChangesView> {
        match (content.member("kind"@), content.u64_of("old"@), content.u64_of("new"@)) {
            (Some(kind), Some(old), Some(new)) => match ScoreKind::of_tree(kind) {
                Some(kind) => Some(PlayerChangesView::Score { kind, old, new }),
                None => None,
            },
            _ => None,
        }
    }

    /// The change that a JSON value holds.
    pub open spec fn of_tree(tree: JsonView) -> Option<PlayerChangesView> {
        match variant_of(tree) {
            Some((tag, content)) => {
                let numbers = old_new_of(content, |t: JsonView| t.as_u64());
                let integers = old_new_of(content, |t: JsonView| t.as_i32());
                let texts = old_new_of(content, |t: JsonView| t.as_text());
                let positions = old_new_of(content, |t: JsonView| WorldPositionView::of_tree(t));
                if tag == "Name"@ {
                    match texts {
                        Some((old, new)) => Some(PlayerChangesView::Name { old, new }),
                        None => None,
                    }
                } else if tag == "ClanTag"@ {
                    match texts {
                        Some((old, new)) => Some(PlayerChangesView::ClanTag { old, new }),
                        None => None,
                    }
                } else if tag == "Platoon"@ {
                    match texts {
                        Some((old, new)) => Some(PlayerChangesView::Platoon { old, new }),
                        None => None,
                    }
                } else if tag == "Team"@ {
                    match integers {
                        Some((old, new)) => Some(PlayerChangesView::Team { old, new }),
                        None => None,
                    }
                } else if tag == "Role"@ {
                    match integers {
                        Some((old, new)) => Some(PlayerChangesView::Role { old, new }),
                        None => None,
                    }
                } else if tag == "Loadout"@ {
                    match texts {
                        Some((old, new)) => Some(PlayerChangesView::Loadout { old, new }),
                        None => None,
                    }
                } else if tag == "Kills"@ {
                    match numbers {
                        Some((old, new)) => Some(PlayerChangesView::Kills { old, new }),
                        None => None,
                    }
                } else if tag == "Deaths"@ {
                    match numbers {
                        Some((old, new)) => Some(PlayerChangesView::Deaths { old, new }),
                        None => None,
                    }
                } else if tag == "Score"@ {
                    PlayerChangesView::score_of(content)
                } else if tag == "Level"@ {
                    match integers {
                        Some((old, new)) => Some(PlayerChangesView::Level { old, new }),
                        None => None,
                    }
                } else if tag == "WorldPosition"@ {
                    match positions {
                        Some((old, new)) => Some(PlayerChangesView::WorldPosition { old, new }),
                        None => None,
                    }
                } else {
                    None
                }
            },
            None => None,
        }
    }
}

impl PlayerChanges {
    fn score_from(content: &Json) -> (r: Option<PlayerChanges>)
        ensures
            match r {
                Some(c) => PlayerChangesView::score_of(content@) == Some(c@),
                None => PlayerChangesView::score_of(content@) is None,
            },
    {
        match (content.get("kind"), content.u64_of("old"), content.u64_of("new")) {
            (Some(kind), Some(old), Some(new)) => match ScoreKind::from_json(kind) {
                Some(kind) => Some(PlayerChanges::Score { kind, old, new }),
                None => None,
            },
            _ => None,
        }
    }

    /// Reads a change from a JSON value.
    pub fn from_json(tree: &Json) -> (change: Option<PlayerChanges>)
        ensures
            match change {
                Some(c) => PlayerChangesView::of_tree(tree@) == Some(c@),
                None => PlayerChangesView::of_tree(tree@) is None,
            },
    {
        let (tag, content) = match variant(tree) {
            Some(found) => found,
            None => {
                return None;
            },
        };
        let null = Json::Null;
        let content = match content {
            Some(content) => content,
            None => &null,
        };
        let tag = tag.as_str();
        if str_eq(tag, "Name") {
            match string_pair(content) {
                Some((old, new)) => Some(PlayerChanges::Name { old, new }),
                None => None,
            }
        } else if str_eq(tag, "ClanTag") {
            match string_pair(content) {
                Some((old, new)) => Some(PlayerChanges::ClanTag { old, new }),
                None => None,
            }
        } else if str_eq(tag, "Platoon") {
            match string_pair(content) {
                Some((old, new)) => Some(PlayerChanges::Platoon { old, new }),
                None => None,
            }
        } else if str_eq(tag, "Team") {
            match signed_pair(content) {
                Some((old, new)) => Some(PlayerChanges::Team { old, new }),
                None => None,
            }
        } else if str_eq(tag, "Role") {
            match signed_pair(content) {
                Some((old, new)) => Some(PlayerChanges::Role { old, new }),
                None => None,
            }
        } else if str_eq(tag, "Loadout") {
            match string_pair(content) {
                Some((old, new)) => Some(PlayerChanges::Loadout { old, new }),
                None => None,
            }
        } else if str_eq(tag, "Kills") {
            match unsigned_pair(content) {
                Some((old, new)) => Some(PlayerChanges::Kills { old, new }),
                None => None,
            }
        } else if str_eq(tag, "Deaths") {
            match unsigned_pair(content) {
                Some((old, new)) => Some(PlayerChanges::Deaths { old, new }),
                None => None,
            }
        } else if str_eq(tag, "Score") {
            PlayerChanges::score_from(content)
        } else if str_eq(tag, "Level") {
            match signed_pair(content) {
                Some((old, new)) => Some(PlayerChanges::Level { old, new }),
                None => None,
            }
        } else if str_eq(tag, "WorldPosition") {
            match position_pair(content) {
                Some((old, new)) => Some(PlayerChanges::WorldPosition { old, new }),
                None => None,
            }
        } else {
            None
        }
    }
}

proof fn lemma_player_change_tags()
    ensures
        name_key("Name"@) == (4nat, 'N', 'e'),
        name_key("ClanTag"@) == (7nat, 'C', 'g'),
        name_key("Platoon"@) == (7nat, 'P', 'n'),
        name_key("Team"@) == (4nat, 'T', 'm'),
        name_key("Role"@) == (4nat, 'R', 'e'),
        name_key("Loadout"@) == (7nat, 'L', 't'),
        name_key("Kills"@) == (5nat, 'K', 's'),
        name_key("Deaths"@) == (6nat, 'D', 's'),
        name_key("Score"@) == (5nat, 'S', 'e'),
        name_key("Level"@) == (5nat, 'L', 'l'),
        name_key("WorldPosition"@) == (13nat, 'W', 'n'),
{
    reveal_strlit("Name");
    reveal_strlit("ClanTag");
    reveal_strlit("Platoon");
    reveal_strlit("Team");
    reveal_strlit("Role");
    reveal_strlit("Loadout");
    reveal_strlit("Kills");
    reveal_strlit("Deaths");
    reveal_strlit("Score");
    reveal_strlit("Level");
    reveal_strlit("WorldPosition");
}

/// A change of a player that was written is read as it was.
pub proof fn lemma_player_change_round_trip(change: PlayerChangesView)
    ensures
        PlayerChangesView::of_tree(change.tree()) == Some(change),
{
    lemma_player_change_tags();
    let number = |v: u64| unsigned(v as nat);
    let read_number = |t: JsonView| t.as_u64();
    let integer = |v: i32| signed(v as int);
    let read_integer = |t: JsonView| t.as_i32();
    let text = |v: Seq<char>| JsonView::Text(v);
    let read_text = |t: JsonView| t.as_text();
    let position = |v: WorldPositionView| v.tree();
    let read_position = |t: JsonView| WorldPositionView::of_tree(t);
    match change {
        PlayerChangesView::Name { old, new }
        | PlayerChangesView::ClanTag { old, new }
        | PlayerChangesView::Platoon { old, new }
        | PlayerChangesView::Loadout { old, new } => {
            lemma_old_new_round_trip(old, new, text, read_text);
        },
        PlayerChangesView::Team { old, new }
        | PlayerChangesView::Role { old, new }
        | PlayerChangesView::Level { old, new } => {
            lemma_signed_round_trip(old as i64);
            lemma_signed_round_trip(new as i64);
            lemma_old_new_round_trip(old, new, integer, read_integer);
        },
        PlayerChangesView::Kills { old, new } | PlayerChangesView::Deaths { old, new } => {
            lemma_unsigned_round_trip(old);
            lemma_unsigned_round_trip(new);
            lemma_old_new_round_trip(old, new, number, read_number);
        },
        PlayerChangesView::Score { kind, old, new } => {
            let members = change.tree()->Object_0[0].1->Object_0;
            reveal_strlit("kind");
            reveal_strlit("old");
            reveal_strlit("new");
            assert(name_key("kind"@) == (4nat, 'k', 'd'));
            assert(name_key("old"@) == (3nat, 'o', 'd'));
            assert(name_key("new"@) == (3nat, 'n', 'w'));
            lemma_member_found(members, 0);
            lemma_member_found(members, 1);
            lemma_member_found(members, 2);
            lemma_score_kind_round_trip(kind);
            lemma_unsigned_round_trip(old);
            lemma_unsigned_round_trip(new);
        },
        PlayerChangesView::WorldPosition { old, new } => {
            lemma_position_round_trip(old);
            lemma_position_round_trip(new);
            lemma_old_new_round_trip(old, new, position, read_position);
        },
    }
}

/// The changes of a player that the items of an array hold.
pub open spec fn player_changes_of(tree: JsonView) -> Option<Seq<PlayerChangesView>> {
    match tree {
        JsonView::Array(items) => list_of(items, |t: JsonView| PlayerChangesView::of_tree(t)),
        _ => None,
    }
}

/// The changes of the match that the items of an array hold.
pub open spec fn game_changes_of(tree: JsonView) -> Option<Seq<GameStateChangesView>> {
    match tree {
        JsonView::Array(items) => list_of(items, |t: JsonView| GameStateChangesView::of_tree(t)),
        _ => None,
    }
}

/// Reads the changes of a player from a JSON array.
pub fn player_changes_from(tree: &Json) -> (changes: Option<Vec<PlayerChanges>>)
    ensures
        match changes {
            Some(list) => player_changes_of(tree@) == Some(list.deep_view()),
            None => player_changes_of(tree@) is None,
        },
{
    let items = match tree.as_array() {
        Some(items) => items,
        None => {
            return None;
        },
    };
    let ghost trees = items.deep_view();
    let mut changes: Vec<PlayerChanges> = Vec::new();
    let mut i: usize = 0;
    while i < items.len()
        invariant
            i <= items@.len(),
            trees == items.deep_view(),
            tree@ == JsonView::Array(trees),
            changes@.len() == i,
            forall|j: int|
                0 <= j < i ==> PlayerChangesView::of_tree(#[trigger] trees[j]) == Some(
                    changes@[j]@,
                ),
        decreases items@.len() - i,
    {
        match PlayerChanges::from_json(&items[i]) {
            Some(change) => {
                changes.push(change);
            },
            None => {
                assert(PlayerChangesView::of_tree(trees[i as int]) is None);
                return None;
            },
        }
        i += 1;
    }
    Some(changes)
}

/// Reads the changes of the match from a JSON array.
pub fn game_changes_from(tree: &Json) -> (changes: Option<Vec<GameStateChanges>>)
    ensures
        match changes {
            Some(list) => game_changes_of(tree@) == Some(list.deep_view()),
            None => game_changes_of(tree@) is None,
        },
{
    let items = match tree.as_array() {
        Some(items) => items,
        None => {
            return None;
        },
    };
    let ghost trees = items.deep_view();
    let mut changes: Vec<GameStateChanges> = Vec::new();
    let mut i: usize = 0;
    while i < items.len()
        invariant
            i <= items@.len(),
            trees == items.deep_view(),
            tree@ == JsonView::Array(trees),
            changes@.len() == i,
            forall|j: int|
                0 <= j < i ==> GameStateChangesView::of_tree(#[trigger] trees[j]) == Some(
                    changes@[j]@,
                ),
        decreases items@.len() - i,
    {
        match GameStateChanges::from_json(&items[i]) {
            Some(change) => {
                changes.push(change);
            },
            None => {
                assert(GameStateChangesView::of_tree(trees[i as int]) is None);
                return None;
            },
        }
        i += 1;
    }
    Some(changes)
}

impl RconEventView {
    /// The change of a player that the content of the variant holds.
    pub open spec fn player_of(content: JsonView) -> Option<RconEventView> {
        match (content.member("old"@), content.member("new"@), content.member("changes"@)) {
            (Some(old), Some(new), Some(changes)) => match (
                PlayerDataView::of_tree(old),
                PlayerDataView::of_tree(new),
                player_changes_of(changes),
            ) {
                (Some(old), Some(new), Some(changes)) => Some(
                    RconEventView::Player { old, new, changes },
                ),
                _ => None,
            },
            _ => None,
        }
    }

    /// The change of the match that the content of the variant holds.
    pub open spec fn game_of(content: JsonView) -> Option<RconEventView> {
        match (content.member("changes"@), content.member("new_state"@)) {
            (Some(changes), Some(new_state)) => match (
                game_changes_of(changes),
                GameStateView::of_tree(new_state),
            ) {
                (Some(changes), Some(new_state)) => Some(RconEventView::Game { changes, new_state }),
                _ => None,
            },
            _ => None,
        }
    }

    /// The event that a JSON value holds.
    pub open spec fn of_tree(tree: JsonView) -> Option<RconEventView> {
        match variant_of(tree) {
            Some((tag, content)) => if tag == "Player"@ {
                RconEventView::player_of(content)
            } else if tag == "Log"@ {
                match LogLineView::of_tree(content) {
                    Some(line) => Some(RconEventView::Log(line)),
                    None => None,
                }
            } else if tag == "Game"@ {
                RconEventView::game_of(content)
            } else {
                None
            },
            None => None,
        }
    }
}

impl RconEvent {
    fn player_from(content: &Json) -> (r: Option<RconEvent>)
        ensures
            match r {
                Some(e) => RconEventView::player_of(content@) == Some(e@),
                None => RconEventView::player_of(content@) is None,
            },
    {
        match (content.get("old"), content.get("new"), content.get("changes")) {
            (Some(old), Some(new), Some(changes)) => match (
                PlayerData::from_json(old),
                PlayerData::from_json(new),
                player_changes_from(changes),
            ) {
                (Some(old), Some(new), Some(changes)) => Some(
                    RconEvent::Player { old, new, changes },
                ),
                _ => None,
            },
            _ => None,
        }
    }

    fn game_from(content: &Json) -> (r: Option<RconEvent>)
        ensures
            match r {
                Some(e) => RconEventView::game_of(content@) == Some(e@),
                None => RconEventView::game_of(content@) is None,
            },
    {
        match (content.get("changes"), content.get("new_state")) {
            (Some(changes), Some(new_state)) => match (
                game_changes_from(changes),
                GameState::from_json(new_state),
            ) {
                (Some(changes), Some(new_state)) => Some(RconEvent::Game { changes, new_state }),
                _ => None,
            },
            _ => None,
        }
    }

    /// Reads an event from a JSON value.
    pub fn from_json(tree: &Json) -> (event: Option<RconEvent>)
        ensures
            match event {
                Some(e) => RconEventView::of_tree(tree@) == Some(e@),
                None => RconEventView::of_tree(tree@) is None,
            },
    {
        let (tag, content) = match variant(tree) {
            Some(found) => found,
            None => {
                return None;
            },
        };
        let null = Json::Null;
        let content = match content {
            Some(content) => content,
            None => &null,
        };
        let tag = tag.as_str();
        if str_eq(tag, "Player") {
            RconEvent::player_from(content)
        } else if str_eq(tag, "Log") {
            match LogLine::from_json(content) {
                Some(line) => Some(RconEvent::Log(line)),
                None => None,
            }
        } else if str_eq(tag, "Game") {
            RconEvent::game_from(content)
        } else {
            None
        }
    }
}

/// A list of changes of a player that was written is read as it was.
pub proof fn lemma_player_changes_round_trip(changes: Seq<PlayerChangesView>)
    ensures
        player_changes_of(player_changes_tree(changes)) == Some(changes),
{
    assert forall|i: int| 0 <= i < changes.len() implies PlayerChangesView::of_tree(
        (#[trigger] changes[i]).tree(),
    ) == Some(changes[i]) by {
        lemma_player_change_round_trip(changes[i]);
    }
    lemma_list_round_trip(
        changes,
        |c: PlayerChangesView| c.tree(),
        |t: JsonView| PlayerChangesView::of_tree(t),
    );
}

/// A list of changes of the match that was written is read as it was.
pub proof fn lemma_game_changes_round_trip(changes: Seq<GameStateChangesView>)
    ensures
        game_changes_of(game_changes_tree(changes)) == Some(changes),
{
    assert forall|i: int| 0 <= i < changes.len() implies GameStateChangesView::of_tree(
        (#[trigger] changes[i]).tree(),
    ) == Some(changes[i]) by {
        lemma_game_change_round_trip(changes[i]);
    }
    lemma_list_round_trip(
        changes,
        |c: GameStateChangesView| c.tree(),
        |t: JsonView| GameStateChangesView::of_tree(t),
    );
}

proof fn lemma_player_event_round_trip(
    old: PlayerDataView,
    new: PlayerDataView,
    changes: Seq<PlayerChangesView>,
)
    ensures
        RconEventView::player_of(
            JsonView::Object(
                seq![
                    ("old"@, old.tree()),
                    ("new"@, new.tree()),
                    ("changes"@, player_changes_tree(changes)),
                ],
            ),
        ) == Some(RconEventView::Player { old, new, changes }),
{
    let members = seq![
        ("old"@, old.tree()),
        ("new"@, new.tree()),
        ("changes"@, player_changes_tree(changes)),
    ];
    reveal_strlit("old");
    reveal_strlit("new");
    reveal_strlit("changes");
    assert(name_key("old"@) == (3nat, 'o', 'd'));
    assert(name_key("new"@) == (3nat, 'n', 'w'));
    assert(name_key("changes"@) == (7nat, 'c', 's'));
    lemma_member_found(members, 0);
    lemma_member_found(members, 1);
    lemma_member_found(members, 2);
    lemma_player_data_round_trip(old);
    lemma_player_data_round_trip(new);
    lemma_player_changes_round_trip(changes);
}

proof fn lemma_game_event_round_trip(changes: Seq<GameStateChangesView>, new_state: GameStateView)
    ensures
        RconEventView::game_of(
            JsonView::Object(
                seq![
                    ("changes"@, game_changes_tree(changes)),
                    ("new_state"@, new_state.tree()),
                ],
            ),
        ) == Some(RconEventView::Game { changes, new_state }),
{
    let members = seq![
        ("changes"@, game_changes_tree(changes)),
        ("new_state"@, new_state.tree()),
    ];
    reveal_strlit("changes");
    reveal_strlit("new_state");
    assert(name_key("changes"@) == (7nat, 'c', 's'));
    assert(name_key("new_state"@) == (9nat, 'n', 'e'));
    lemma_member_found(members, 0);
    lemma_member_found(members, 1);
    lemma_game_state_round_trip(new_state);
    lemma_game_changes_round_trip(changes);
}

/// An event that was written is read as it was.
pub proof fn lemma_event_round_trip(event: RconEventView)
    ensures
        RconEventView::of_tree(event.tree()) == Some(event),
{
    reveal_strlit("Player");
    reveal_strlit("Log");
    reveal_strlit("Game");
    assert(name_key("Player"@) == (6nat, 'P', 'r'));
    assert(name_key("Log"@) == (3nat, 'L', 'g'));
    assert(name_key("Game"@) == (4nat, 'G', 'e'));
    match event {
        RconEventView::Player { old, new, changes } => {
            lemma_player_event_round_trip(old, new, changes);
        },
        RconEventView::Log(line) => {
            lemma_log_line_round_trip(line);
        },
        RconEventView::Game { changes, new_state } => {
            lemma_game_event_round_trip(changes, new_state);
        },
    }
}

/// A response of the game server that was written is read as it was.
pub proof fn lemma_response_round_trip(response: RconResponseView)
    ensures
        RconResponseView::of_tree(response.tree()) == Some(response),
{
    let members = response.tree()->Object_0;
    reveal_strlit("statusCode");
    reveal_strlit("statusMessage");
    reveal_strlit("version");
    reveal_strlit("name");
    reveal_strlit("contentBody");
    assert(name_key("statusCode"@) == (10nat, 's', 'e'));
    assert(name_key("statusMessage"@) == (13nat, 's', 'e'));
    assert(name_key("version"@) == (7nat, 'v', 'n'));
    assert(name_key("name"@) == (4nat, 'n', 'e'));
    assert(name_key("contentBody"@) == (11nat, 'c', 'y'));
    lemma_member_found(members, 0);
    lemma_member_found(members, 1);
    lemma_member_found(members, 2);
    lemma_member_found(members, 3);
    lemma_member_found(members, 4);
    lemma_signed_round_trip(response.status_code as i64);
    lemma_signed_round_trip(response.version as i64);
}

impl CommandResponseKindView {
    /// The answer that a JSON value holds.
    pub open spec fn of_tree(tree: JsonView) -> Option<CommandResponseKindView> {
        match variant_of(tree) {
            Some((tag, content)) => if tag == "Raw"@ {
                match RconResponseView::of_tree(content) {
                    Some(response) => Some(CommandResponseKindView::Raw(response)),
                    None => None,
                }
            } else if tag == "GetGameState"@ {
                match GameStateView::of_tree(content) {
                    Some(state) => Some(CommandResponseKindView::GetGameState(state)),
                    None => None,
                }
            } else if tag == "GetPlayers"@ {
                match content {
                    JsonView::Array(items) => match players_of(items) {
                        Some(players) => Some(CommandResponseKindView::GetPlayers(players)),
                        None => None,
                    },
                    _ => None,
                }
            } else if tag == "GetPlayer"@ {
                if content is Null {
                    Some(CommandResponseKindView::GetPlayer(None))
                } else {
                    match PlayerDataView::of_tree(content) {
                        Some(player) => Some(CommandResponseKindView::GetPlayer(Some(player))),
                        None => None,
                    }
                }
            } else if tag == "Success"@ {
                if content is Null {
                    Some(CommandResponseKindView::Success)
                } else {
                    None
                }
            } else if tag == "Error"@ {
                match content.as_text() {
                    Some(text) => Some(CommandResponseKindView::Error(text)),
                    None => None,
                }
            } else {
                None
            },
            None => None,
        }
    }
}

impl CommandResponseKind {
    /// Reads an answer from a JSON value.
    pub fn from_json(tree: &Json) -> (answer: Option<CommandResponseKind>)
        ensures
            match answer {
                Some(a) => CommandResponseKindView::of_tree(tree@) == Some(a@),
                None => CommandResponseKindView::of_tree(tree@) is None,
            },
    {
        let (tag, content) = match variant(tree) {
            Some(found) => found,
            None => {
                return None;
            },
        };
        let null = Json::Null;
        let content = match content {
            Some(content) => content,
            None => &null,
        };
        let tag = tag.as_str();
        if str_eq(tag, "Raw") {
            match RconResponse::from_json(content) {
                Some(response) => Some(CommandResponseKind::Raw(response)),
                None => None,
            }
        } else if str_eq(tag, "GetGameState") {
            match GameState::from_json(content) {
                Some(state) => Some(CommandResponseKind::GetGameState(state)),
                None => None,
            }
        } else if str_eq(tag, "GetPlayers") {
            match content.as_array() {
                Some(items) => match players_from(items) {
                    Some(players) => Some(CommandResponseKind::GetPlayers(players)),
                    None => None,
                },
                None => None,
            }
        } else if str_eq(tag, "GetPlayer") {
            match content {
                Json::Null => Some(CommandResponseKind::GetPlayer(None)),
                _ => match PlayerData::from_json(content) {
                    Some(player) => Some(CommandResponseKind::GetPlayer(Some(player))),
                    None => None,
                },
            }
        } else if str_eq(tag, "Success") {
            match content {
                Json::Null => Some(CommandResponseKind::Success),
                _ => None,
            }
        } else if str_eq(tag, "Error") {
            match content.as_str() {
                Some(text) => Some(CommandResponseKind::Error(text.clone())),
                None => None,
            }
        } else {
            None
        }
    }
}

proof fn lemma_answer_tags()
    ensures
        name_key("Raw"@) == (3nat, 'R', 'w'),
        name_key("GetGameState"@) == (12nat, 'G', 'e'),
        name_key("GetPlayers"@) == (10nat, 'G', 's'),
        name_key("GetPlayer"@) == (9nat, 'G', 'r'),
        name_key("Success"@) == (7nat, 'S', 's'),
        name_key("Error"@) == (5nat, 'E', 'r'),
{
    reveal_strlit("Raw");
    reveal_strlit("GetGameState");
    reveal_strlit("GetPlayers");
    reveal_strlit("GetPlayer");
    reveal_strlit("Success");
    reveal_strlit("Error");
}

/// An answer to a command that was written is read as it was.
pub proof fn lemma_answer_round_trip(answer: CommandResponseKindView)
    ensures
        CommandResponseKindView::of_tree(answer.tree()) == Some(answer),
{
    lemma_answer_tags();
    match answer {
        CommandResponseKindView::Raw(response) => {
            lemma_response_round_trip(response);
        },
        CommandResponseKindView::GetGameState(state) => {
            lemma_game_state_round_trip(state);
        },
        CommandResponseKindView::GetPlayers(players) => {
            let items = players.map_values(|p: PlayerDataView| p.tree());
            assert forall|i: int| 0 <= i < items.len() implies PlayerDataView::of_tree(
                #[trigger] items[i],
            ) is Some by {
                lemma_player_data_round_trip(players[i]);
            }
            assert(players_of(items).unwrap() =~= players) by {
                assert forall|i: int| 0 <= i < players.len() implies players_of(items).unwrap()[i]
                    == players[i] by {
                    lemma_player_data_round_trip(players[i]);
                }
            }
        },
        CommandResponseKindView::GetPlayer(player) => {
            match player {
                Some(p) => {
                    lemma_player_data_round_trip(p);
                },
                None => {},
            }
        },
        CommandResponseKindView::Success => {},
        CommandResponseKindView::Error(_) => {},
    }
}

impl ServerWsResponseView {
    /// The answer that the member `response` of `content` holds; none where it is `null`.
    pub open spec fn response_of(content: JsonView) -> Option<Option<CommandResponseKindView>> {
        match content.member("response"@) {
            Some(JsonView::Null) => Some(None),
            Some(answer) => match CommandResponseKindView::of_tree(answer) {
                Some(answer) => Some(Some(answer)),
                None => None,
            },
            None => None,
        }
    }

    /// The answer that a JSON value holds.
    pub open spec fn of_tree(tree: JsonView) -> Option<ServerWsResponseView> {
        match variant_of(tree) {
            Some((tag, content)) => if tag == "Execute"@ {
                match (content.bool_of("failure"@), ServerWsResponseView::response_of(content)) {
                    (Some(failure), Some(response)) => Some(
                        ServerWsResponseView::Execute { failure, response },
                    ),
                    _ => None,
                }
            } else {
                None
            },
            None => None,
        }
    }
}

impl ServerWsResponse {
    /// Reads an answer from a JSON value.
    pub fn from_json(tree: &Json) -> (answer: Option<ServerWsResponse>)
        ensures
            match answer {
                Some(a) => ServerWsResponseView::of_tree(tree@) == Some(a@),
                None => ServerWsResponseView::of_tree(tree@) is None,
            },
    {
        let (tag, content) = match variant(tree) {
            Some(found) => found,
            None => {
                return None;
            },
        };
        if !str_eq(tag.as_str(), "Execute") {
            return None;
        }
        let null = Json::Null;
        let content = match content {
            Some(content) => content,
            None => &null,
        };
        let failure = match content.bool_of("failure") {
            Some(failure) => failure,
            None => {
                return None;
            },
        };
        let response = match content.get("response") {
            Some(Json::Null) => None,
            Some(answer) => match CommandResponseKind::from_json(answer) {
                Some(answer) => Some(answer),
                None => {
                    return None;
                },
            },
            None => {
                return None;
            },
        };
        Some(ServerWsResponse::Execute { failure, response })
    }
}

/// An answer of the service that was written is read as it was.
pub proof fn lemma_server_response_round_trip(answer: ServerWsResponseView)
    ensures
        ServerWsResponseView::of_tree(answer.tree()) == Some(answer),
{
    let members = answer.tree()->Object_0[0].1->Object_0;
    reveal_strlit("failure");
    reveal_strlit("response");
    assert(name_key("failure"@) == (7nat, 'f', 'e'));
    assert(name_key("response"@) == (8nat, 'r', 'e'));
    lemma_member_found(members, 0);
    lemma_member_found(members, 1);
    match answer {
        ServerWsResponseView::Execute { failure, response } => {
            match response {
                Some(r) => {
                    lemma_answer_round_trip(r);
                    lemma_answer_tags();
                },
                None => {},
            }
        },
    }
}

impl ServerWsMessageView {
    /// The answer to a request that the content of the variant holds.
    pub open spec fn response_of(content: JsonView) -> Option<ServerWsMessageView> {
        match (content.text_of("id"@), content.member("value"@)) {
            (Some(id), Some(value)) => match ServerWsResponseView::of_tree(value) {
                Some(value) => Some(ServerWsMessageView::Response { id, value }),
                None => None,
            },
            _ => None,
        }
    }

    /// The message that a JSON value holds.
    pub open spec fn of_tree(tree: JsonView) -> Option<ServerWsMessageView> {
        match variant_of(tree) {
            Some((tag, content)) => if tag == "Rcon"@ {
                match RconEventView::of_tree(content) {
                    Some(event) => Some(ServerWsMessageView::Rcon(event)),
                    None => None,
                }
            } else if tag == "Response"@ {
                ServerWsMessageView::response_of(content)
            } else if tag == "Authenticated"@ {
                if content is Null {
                    Some(ServerWsMessageView::Authenticated)
                } else {
                    None
                }
            } else {
                None
            },
            None => None,
        }
    }

    /// The message that the text of a frame holds.
    pub open spec fn of_text(text: Seq<char>) -> Option<ServerWsMessageView> {
        match json_parse(text) {
            Some(tree) => ServerWsMessageView::of_tree(tree),
            None => None,
        }
    }
}

impl ServerWsMessage {
    /// Reads a message from a JSON value.
    pub fn from_json(tree: &Json) -> (message: Option<ServerWsMessage>)
        ensures
            match message {
                Some(m) => ServerWsMessageView::of_tree(tree@) == Some(m@),
                None => ServerWsMessageView::of_tree(tree@) is None,
            },
    {
        let (tag, content) = match variant(tree) {
            Some(found) => found,
            None => {
                return None;
            },
        };
        let null = Json::Null;
        let content = match content {
            Some(content) => content,
            None => &null,
        };
        let tag = tag.as_str();
        if str_eq(tag, "Rcon") {
            match RconEvent::from_json(content) {
                Some(event) => Some(ServerWsMessage::Rcon(event)),
                None => None,
            }
        } else if str_eq(tag, "Response") {
            match (content.text_of("id"), content.get("value")) {
                (Some(id), Some(value)) => match ServerWsResponse::from_json(value) {
                    Some(value) => Some(ServerWsMessage::Response { id, value }),
                    None => None,
                },
                _ => None,
            }
        } else if str_eq(tag, "Authenticated") {
            match content {
                Json::Null => Some(ServerWsMessage::Authenticated),
                _ => None,
            }
        } else {
            None
        }
    }

    /// Reads a message from the text of a frame.
    pub fn parse(text: &str) -> (message: Option<ServerWsMessage>)
        ensures
            match message {
                Some(m) => ServerWsMessageView::of_text(text@) == Some(m@),
                None => ServerWsMessageView::of_text(text@) is None,
            },
    {
        match Json::parse(text) {
            Some(tree) => ServerWsMessage::from_json(&tree),
            None => None,
        }
    }
}

/// Every message of the service is read from the JSON value that is
/// written for it as the message that it was.
pub proof fn lemma_server_message_round_trip(message: ServerWsMessageView)
    ensures
        ServerWsMessageView::of_tree(message.tree()) == Some(message),
{
    reveal_strlit("Rcon");
    reveal_strlit("Response");
    reveal_strlit("Authenticated");
    assert(name_key("Rcon"@) == (4nat, 'R', 'n'));
    assert(name_key("Response"@) == (8nat, 'R', 'e'));
    assert(name_key("Authenticated"@) == (13nat, 'A', 'd'));
    match message {
        ServerWsMessageView::Rcon(event) => {
            lemma_event_round_trip(event);
        },
        ServerWsMessageView::Response { id, value } => {
            let members = message.tree()->Object_0[0].1->Object_0;
            reveal_strlit("id");
            reveal_strlit("value");
            assert(name_key("id"@) == (2nat, 'i', 'd'));
            assert(name_key("value"@) == (5nat, 'v', 'e'));
            lemma_member_found(members, 0);
            lemma_member_found(members, 1);
            lemma_server_response_round_trip(value);
        },
        ServerWsMessageView::Authenticated => {},
    }
}

} // verus!
