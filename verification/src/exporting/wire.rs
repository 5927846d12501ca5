//! The JSON form of the messages of the WebSocket protocol.
//!
//! A struct is an object with one member per field.  A choice between
//! variants is an object with a single member, named after the variant,
//! that holds the variant's content: an object for named fields, the value
//! itself for one unnamed field, an array for several.  A variant without
//! content is written as a string with its name; only the message that
//! tells a client that it has logged in is written as an object with the
//! content `null`.  An absent value is `null`.

use vstd::prelude::*;
use crate::events::{
    GameStateChanges,
    GameStateChangesView,
    PlayerChanges,
    PlayerChangesView,
    RconEvent,
    RconEventView,
    ScoreKind,
};
use crate::exporting::messages::{
    CommandResponseKind,
    CommandResponseKindView,
    ServerWsMessage,
    ServerWsMessageView,
    ServerWsResponse,
    ServerWsResponseView,
};
use crate::json::{ArrayBuilder, Json, JsonView, ObjectBuilder};
use crate::messages::RconResponse;
use crate::parsing::gamestate::{GameState, GameStateView};
use crate::parsing::player::{Player, PlayerId, PlayerIdView, PlayerView};
use crate::parsing::playerinfo::{
    PlayerData,
    PlayerDataView,
    ScoreData,
    WorldPosition,
    WorldPositionView,
};
use crate::parsing::showlog::{LogKind, LogKindView, LogLine, LogLineView};
use crate::parsing::utils::{decimal_digits, format_i64, format_u64, signed_digits};

verus! {

/// A variant with content: an object whose only member is named after the variant.
pub open spec fn tagged(tag: Seq<char>, content: JsonView) -> JsonView {
    JsonView::Object(seq![(tag, content)])
}

/// An unsigned number.
pub open spec fn unsigned(value: nat) -> JsonView {
    JsonView::Number(decimal_digits(value))
}

/// A signed number.
pub open spec fn signed(value: int) -> JsonView {
    JsonView::Number(signed_digits(value))
}

/// An object with the members `old` and `new`.
pub open spec fn old_new(old: JsonView, new: JsonView) -> JsonView {
    JsonView::Object(seq![("old"@, old), ("new"@, new)])
}

/// The trees of a list of values, by the tree of each.
pub open spec fn trees<A>(values: Seq<A>, tree: spec_fn(A) -> JsonView) -> JsonView {
    JsonView::Array(values.map_values(tree))
}

/// A variant with content.
pub fn make_tagged(tag: &str, content: Json) -> (tree: Json)
    ensures
        tree@ == tagged(tag@, content@),
{
    let mut object = ObjectBuilder::new();
    object.member(tag, content);
    object.finish()
}

/// An unsigned number.
pub fn make_unsigned(value: u64) -> (tree: Json)
    ensures
        tree@ == unsigned(value as nat),
{
    Json::Number(format_u64(value))
}

/// A signed number.
pub fn make_signed(value: i64) -> (tree: Json)
    ensures
        tree@ == signed(value as int),
{
    Json::Number(format_i64(value))
}

/// An object with the members `old` and `new`.
pub fn make_old_new(old: Json, new: Json) -> (tree: Json)
    ensures
        tree@ == old_new(old@, new@),
{
    let mut object = ObjectBuilder::new();
    object.member("old", old);
    object.member("new", new);
    assert(object@ =~= seq![("old"@, old@), ("new"@, new@)]);
    object.finish()
}

impl ScoreData {
    /// The score as a JSON object.
    pub open spec fn tree(self) -> JsonView {
        JsonView::Object(
            seq![
                ("cOMBAT"@, unsigned(self.combat as nat)),
                ("defense"@, unsigned(self.defense as nat)),
                ("support"@, unsigned(self.support as nat)),
                ("offense"@, unsigned(self.offense as nat)),
            ],
        )
    }

    /// The score as a JSON object.
    pub fn to_json(&self) -> (tree: Json)
        ensures
            tree@ == self.tree(),
    {
        let mut object = ObjectBuilder::new();
        object.member("cOMBAT", make_unsigned(self.combat as u64));
        object.member("defense", make_unsigned(self.defense as u64));
        object.member("support", make_unsigned(self.support as u64));
        object.member("offense", make_unsigned(self.offense as u64));
        assert(object@ =~= self.tree()->Object_0);
        object.finish()
    }
}

impl WorldPositionView {
    /// The position as a JSON object.
    pub open spec fn tree(self) -> JsonView {
        JsonView::Object(
            seq![
                ("x"@, JsonView::Number(self.x)),
                ("y"@, JsonView::Number(self.y)),
                ("z"@, JsonView::Number(self.z)),
            ],
        )
    }
}

impl WorldPosition {
    /// The position as a JSON object.
    pub fn to_json(&self) -> (tree: Json)
        ensures
            tree@ == self@.tree(),
    {
        let mut object = ObjectBuilder::new();
        object.number("x", self.x.clone());
        object.number("y", self.y.clone());
        object.number("z", self.z.clone());
        assert(object@ =~= self@.tree()->Object_0);
        object.finish()
    }
}

impl PlayerDataView {
    /// The snapshot as a JSON object.
    pub open spec fn tree(self) -> JsonView {
        JsonView::Object(
            seq![
                ("name"@, JsonView::Text(self.name)),
                ("clanTag"@, JsonView::Text(self.clan_tag)),
                ("iD"@, JsonView::Text(self.id)),
                ("platform"@, JsonView::Text(self.platform)),
                ("level"@, signed(self.level as int)),
                ("team"@, signed(self.team as int)),
                ("eOSId"@, JsonView::Text(self.eosid)),
                ("role"@, signed(self.role as int)),
                ("platoon"@, JsonView::Text(self.platoon)),
                ("kills"@, unsigned(self.kills as nat)),
                ("deaths"@, unsigned(self.deaths as nat)),
                ("scoreData"@, self.score.tree()),
                ("worldPosition"@, self.world_position.tree()),
                ("loadout"@, JsonView::Text(self.loadout)),
            ],
        )
    }
}

impl PlayerData {
    /// The snapshot as a JSON object.
    pub fn to_json(&self) -> (tree: Json)
        ensures
            tree@ == self@.tree(),
    {
        let mut object = ObjectBuilder::new();
        object.text("name", &self.name);
        object.text("clanTag", &self.clan_tag);
        object.text("iD", &self.id);
        object.text("platform", &self.platform);
        object.member("level", make_signed(self.level as i64));
        object.member("team", make_signed(self.team as i64));
        object.text("eOSId", &self.eosid);
        object.member("role", make_signed(self.role as i64));
        object.text("platoon", &self.platoon);
        object.member("kills", make_unsigned(self.kills));
        object.member("deaths", make_unsigned(self.deaths));
        object.member("scoreData", self.score.to_json());
        object.member("worldPosition", self.world_position.to_json());
        object.text("loadout", &self.loadout);
        assert(object@ =~= self@.tree()->Object_0);
        object.finish()
    }
}

impl GameStateView {
    /// The snapshot as a JSON object; the remaining time is written as
    /// seconds and nanoseconds.
    pub open spec fn tree(self) -> JsonView {
        JsonView::Object(
            seq![
                ("allied_players"@, unsigned(self.allied_players as nat)),
                ("axis_players"@, unsigned(self.axis_players as nat)),
                ("allied_score"@, unsigned(self.allied_score as nat)),
                ("axis_score"@, unsigned(self.axis_score as nat)),
                (
                    "remaining_time"@,
                    JsonView::Object(
                        seq![
                            ("secs"@, unsigned(self.remaining_time as nat)),
                            ("nanos"@, unsigned(0)),
                        ],
                    ),
                ),
                ("map"@, JsonView::Text(self.map)),
                ("next_map"@, JsonView::Text(self.next_map)),
            ],
        )
    }
}

impl GameState {
    /// The snapshot as a JSON object.
    pub fn to_json(&self) -> (tree: Json)
        ensures
            tree@ == self@.tree(),
    {
        let mut time = ObjectBuilder::new();
        time.member("secs", make_unsigned(self.remaining_time));
        time.member("nanos", make_unsigned(0));
        assert(time@ =~= seq![
            ("secs"@, unsigned(self.remaining_time as nat)),
            ("nanos"@, unsigned(0)),
        ]);
        let mut object = ObjectBuilder::new();
        object.member("allied_players", make_unsigned(self.allied_players));
        object.member("axis_players", make_unsigned(self.axis_players));
        object.member("allied_score", make_unsigned(self.allied_score));
        object.member("axis_score", make_unsigned(self.axis_score));
        object.member("remaining_time", time.finish());
        object.text("map", &self.map);
        object.text("next_map", &self.next_map);
        assert(object@ =~= self@.tree()->Object_0);
        object.finish()
    }
}

impl PlayerIdView {
    /// The id as a JSON value.
    pub open spec fn tree(self) -> JsonView {
        match self {
            PlayerIdView::Steam(id) => tagged("Steam"@, unsigned(id as nat)),
            PlayerIdView::Windows(id) => tagged("Windows"@, JsonView::Text(id)),
        }
    }
}

impl PlayerId {
    /// The id as a JSON value.
    pub fn to_json(&self) -> (tree: Json)
        ensures
            tree@ == self@.tree(),
    {
        match self {
            PlayerId::Steam(id) => make_tagged("Steam", make_unsigned(*id)),
            PlayerId::Windows(id) => make_tagged("Windows", Json::Text(id.clone())),
        }
    }
}

impl PlayerView {
    /// The player as a JSON object.
    pub open spec fn tree(self) -> JsonView {
        JsonView::Object(seq![("name"@, JsonView::Text(self.name)), ("id"@, self.id.tree())])
    }
}

impl Player {
    /// The player as a JSON object.
    pub fn to_json(&self) -> (tree: Json)
        ensures
            tree@ == self@.tree(),
    {
        let mut object = ObjectBuilder::new();
        object.text("name", &self.name);
        object.member("id", self.id.to_json());
        assert(object@ =~= self@.tree()->Object_0);
        object.finish()
    }
}

impl LogKindView {
    /// What a line reports, as a JSON value.
    pub open spec fn tree(self) -> JsonView {
        match self {
            LogKindView::Connect { player, has_connected } => tagged(
                "Connect"@,
                JsonView::Object(
                    seq![
                        ("player"@, player.tree()),
                        ("has_connected"@, JsonView::Bool(has_connected)),
                    ],
                ),
            ),
            LogKindView::TeamSwitch { player, old_team, new_team } => tagged(
                "TeamSwitch"@,
                JsonView::Object(
                    seq![
                        ("player"@, player.tree()),
                        ("old_team"@, JsonView::Text(old_team)),
                        ("new_team"@, JsonView::Text(new_team)),
                    ],
                ),
            ),
            LogKindView::Kill {
                killer,
                killer_faction,
                victim,
                victim_faction,
                is_teamkill,
                weapon,
            } => tagged(
                "Kill"@,
                JsonView::Object(
                    seq![
                        ("killer"@, killer.tree()),
                        ("killer_faction"@, JsonView::Text(killer_faction)),
                        ("victim"@, victim.tree()),
                        ("victim_faction"@, JsonView::Text(victim_faction)),
                        ("is_teamkill"@, JsonView::Bool(is_teamkill)),
                        ("weapon"@, JsonView::Text(weapon)),
                    ],
                ),
            ),
            LogKindView::MatchStart { map } => tagged(
                "MatchStart"@,
                JsonView::Object(seq![("map"@, JsonView::Text(map))]),
            ),
            LogKindView::MatchEnded { map, allied_score, axis_score } => tagged(
                "MatchEnded"@,
                JsonView::Object(
                    seq![
                        ("map"@, JsonView::Text(map)),
                        ("allied_score"@, unsigned(allied_score as nat)),
                        ("axis_score"@, unsigned(axis_score as nat)),
                    ],
                ),
            ),
            LogKindView::Chat { sender, team, reach, content } => tagged(
                "Chat"@,
                JsonView::Object(
                    seq![
                        ("sender"@, sender.tree()),
                        ("team"@, JsonView::Text(team)),
                        ("reach"@, JsonView::Text(reach)),
                        ("content"@, JsonView::Text(content)),
                    ],
                ),
            ),
        }
    }
}

impl LogKind {
    /// What a line reports, as a JSON value.
    pub fn to_json(&self) -> (tree: Json)
        ensures
            tree@ == self@.tree(),
    {
        match self {
            LogKind::Connect { player, has_connected } => {
                let mut object = ObjectBuilder::new();
                object.member("player", player.to_json());
                object.member("has_connected", Json::Bool(*has_connected));
                assert(object@ =~= seq![
                    ("player"@, player@.tree()),
                    ("has_connected"@, JsonView::Bool(*has_connected)),
                ]);
                make_tagged("Connect", object.finish())
            },
            LogKind::TeamSwitch { player, old_team, new_team } => {
                let mut object = ObjectBuilder::new();
                object.member("player", player.to_json());
                object.text("old_team", old_team);
                object.text("new_team", new_team);
                assert(object@ =~= seq![
                    ("player"@, player@.tree()),
                    ("old_team"@, JsonView::Text(old_team@)),
                    ("new_team"@, JsonView::Text(new_team@)),
                ]);
                make_tagged("TeamSwitch", object.finish())
            },
            LogKind::Kill {
                killer,
                killer_faction,
                victim,
                victim_faction,
                is_teamkill,
                weapon,
            } => {
                let mut object = ObjectBuilder::new();
                object.member("killer", killer.to_json());
                object.text("killer_faction", killer_faction);
                object.member("victim", victim.to_json());
                object.text("victim_faction", victim_faction);
                object.member("is_teamkill", Json::Bool(*is_teamkill));
                object.text("weapon", weapon);
                assert(object@ =~= seq![
                    ("killer"@, killer@.tree()),
                    ("killer_faction"@, JsonView::Text(killer_faction@)),
                    ("victim"@, victim@.tree()),
                    ("victim_faction"@, JsonView::Text(victim_faction@)),
                    ("is_teamkill"@, JsonView::Bool(*is_teamkill)),
                    ("weapon"@, JsonView::Text(weapon@)),
                ]);
                make_tagged("Kill", object.finish())
            },
            LogKind::MatchStart { map } => {
                let mut object = ObjectBuilder::new();
                object.text("map", map);
                make_tagged("MatchStart", object.finish())
            },
            LogKind::MatchEnded { map, allied_score, axis_score } => {
                let mut object = ObjectBuilder::new();
                object.text("map", map);
                object.member("allied_score", make_unsigned(*allied_score));
                object.member("axis_score", make_unsigned(*axis_score));
                assert(object@ =~= seq![
                    ("map"@, JsonView::Text(map@)),
                    ("allied_score"@, unsigned(*allied_score as nat)),
                    ("axis_score"@, unsigned(*axis_score as nat)),
                ]);
                make_tagged("MatchEnded", object.finish())
            },
            LogKind::Chat { sender, team, reach, content } => {
                let mut object = ObjectBuilder::new();
                object.member("sender", sender.to_json());
                object.text("team", team);
                object.text("reach", reach);
                object.text("content", content);
                assert(object@ =~= seq![
                    ("sender"@, sender@.tree()),
                    ("team"@, JsonView::Text(team@)),
                    ("reach"@, JsonView::Text(reach@)),
                    ("content"@, JsonView::Text(content@)),
                ]);
                make_tagged("Chat", object.finish())
            },
        }
    }
}

impl LogLineView {
    /// The line as a JSON object.
    pub open spec fn tree(self) -> JsonView {
        JsonView::Object(
            seq![("timestamp"@, unsigned(self.timestamp as nat)), ("kind"@, self.kind.tree())],
        )
    }
}

impl LogLine {
    /// The line as a JSON object.
    pub fn to_json(&self) -> (tree: Json)
        ensures
            tree@ == self@.tree(),
    {
        let mut object = ObjectBuilder::new();
        object.member("timestamp", make_unsigned(self.timestamp));
        object.member("kind", self.kind.to_json());
        assert(object@ =~= self@.tree()->Object_0);
        object.finish()
    }
}

impl ScoreKind {
    /// The name of the category.
    pub open spec fn name(self) -> Seq<char> {
        match self {
            ScoreKind::Combat => "Combat"@,
            ScoreKind::Offense => "Offense"@,
            ScoreKind::Defense => "Defense"@,
            ScoreKind::Support => "Support"@,
        }
    }

    /// The category as a JSON value.
    pub fn to_json(&self) -> (tree: Json)
        ensures
            tree@ == JsonView::Text(self.name()),
    {
        match self {
            ScoreKind::Combat => Json::text("Combat"),
            ScoreKind::Offense => Json::text("Offense"),
            ScoreKind::Defense => Json::text("Defense"),
            ScoreKind::Support => Json::text("Support"),
        }
    }
}

impl GameStateChangesView {
    /// The change as a JSON value.
    pub open spec fn tree(self) -> JsonView {
        match self {
            GameStateChangesView::AlliedPlayers { old, new } => tagged(
                "AlliedPlayers"@,
                old_new(unsigned(old as nat), unsigned(new as nat)),
            ),
            GameStateChangesView::AxisPlayers { old, new } => tagged(
                "AxisPlayers"@,
                old_new(unsigned(old as nat), unsigned(new as nat)),
            ),
            GameStateChangesView::AlliedScore { old, new } => tagged(
                "AlliedScore"@,
                old_new(unsigned(old as nat), unsigned(new as nat)),
            ),
            GameStateChangesView::AxisScore { old, new } => tagged(
                "AxisScore"@,
                old_new(unsigned(old as nat), unsigned(new as nat)),
            ),
            GameStateChangesView::CurrentMap { old, new } => tagged(
                "Map"@,
                old_new(JsonView::Text(old), JsonView::Text(new)),
            ),
            GameStateChangesView::NextMap { old, new } => tagged(
                "NextMap"@,
                old_new(JsonView::Text(old), JsonView::Text(new)),
            ),
        }
    }
}

impl GameStateChanges {
    /// The change as a JSON value.
    pub fn to_json(&self) -> (tree: Json)
        ensures
            tree@ == self@.tree(),
    {
        match self {
            GameStateChanges::AlliedPlayers { old, new } => make_tagged(
                "AlliedPlayers",
                make_old_new(make_unsigned(*old), make_unsigned(*new)),
            ),
            GameStateChanges::AxisPlayers { old, new } => make_tagged(
                "AxisPlayers",
                make_old_new(make_unsigned(*old), make_unsigned(*new)),
            ),
            GameStateChanges::AlliedScore { old, new } => make_tagged(
                "AlliedScore",
                make_old_new(make_unsigned(*old), make_unsigned(*new)),
            ),
            GameStateChanges::AxisScore { old, new } => make_tagged(
                "AxisScore",
                make_old_new(make_unsigned(*old), make_unsigned(*new)),
            ),
            GameStateChanges::CurrentMap { old, new } => make_tagged(
                "Map",
                make_old_new(Json::Text(old.clone()), Json::Text(new.clone())),
            ),
            GameStateChanges::NextMap { old, new } => make_tagged(
                "NextMap",
                make_old_new(Json::Text(old.clone()), Json::Text(new.clone())),
            ),
        }
    }
}

impl PlayerChangesView {
    /// The change as a JSON value.
    pub open spec fn tree(self) -> JsonView {
        match self {
            PlayerChangesView::Name { old, new } => tagged(
                "Name"@,
                old_new(JsonView::Text(old), JsonView::Text(new)),
            ),
            PlayerChangesView::ClanTag { old, new } => tagged(
                "ClanTag"@,
                old_new(JsonView::Text(old), JsonView::Text(new)),
            ),
            PlayerChangesView::Platoon { old, new } => tagged(
                "Platoon"@,
                old_new(JsonView::Text(old), JsonView::Text(new)),
            ),
            PlayerChangesView::Team { old, new } => tagged(
                "Team"@,
                old_new(signed(old as int), signed(new as int)),
            ),
            PlayerChangesView::Role { old, new } => tagged(
                "Role"@,
                old_new(signed(old as int), signed(new as int)),
            ),
            PlayerChangesView::Loadout { old, new } => tagged(
                "Loadout"@,
                old_new(JsonView::Text(old), JsonView::Text(new)),
            ),
            PlayerChangesView::Kills { old, new } => tagged(
                "Kills"@,
                old_new(unsigned(old as nat), unsigned(new as nat)),
            ),
            PlayerChangesView::Deaths { old, new } => tagged(
                "Deaths"@,
                old_new(unsigned(old as nat), unsigned(new as nat)),
            ),
            PlayerChangesView::Score { kind, old, new } => tagged(
                "Score"@,
                JsonView::Object(
                    seq![
                        ("kind"@, JsonView::Text(kind.name())),
                        ("old"@, unsigned(old as nat)),
                        ("new"@, unsigned(new as nat)),
                    ],
                ),
            ),
            PlayerChangesView::Level { old, new } => tagged(
                "Level"@,
                old_new(signed(old as int), signed(new as int)),
            ),
            PlayerChangesView::WorldPosition { old, new } => tagged(
                "WorldPosition"@,
                old_new(old.tree(), new.tree()),
            ),
        }
    }
}

impl PlayerChanges {
    /// The change as a JSON value.
    pub fn to_json(&self) -> (tree: Json)
        ensures
            tree@ == self@.tree(),
    {
        match self {
            PlayerChanges::Name { old, new } => make_tagged(
                "Name",
                make_old_new(Json::Text(old.clone()), Json::Text(new.clone())),
            ),
            PlayerChanges::ClanTag { old, new } => make_tagged(
                "ClanTag",
                make_old_new(Json::Text(old.clone()), Json::Text(new.clone())),
            ),
            PlayerChanges::Platoon { old, new } => make_tagged(
                "Platoon",
                make_old_new(Json::Text(old.clone()), Json::Text(new.clone())),
            ),
            PlayerChanges::Team { old, new } => make_tagged(
                "Team",
                make_old_new(make_signed(*old as i64), make_signed(*new as i64)),
            ),
            PlayerChanges::Role { old, new } => make_tagged(
                "Role",
                make_old_new(make_signed(*old as i64), make_signed(*new as i64)),
            ),
            PlayerChanges::Loadout { old, new } => make_tagged(
                "Loadout",
                make_old_new(Json::Text(old.clone()), Json::Text(new.clone())),
            ),
            PlayerChanges::Kills { old, new } => make_tagged(
                "Kills",
                make_old_new(make_unsigned(*old), make_unsigned(*new)),
            ),
            PlayerChanges::Deaths { old, new } => make_tagged(
                "Deaths",
                make_old_new(make_unsigned(*old), make_unsigned(*new)),
            ),
            PlayerChanges::Score { kind, old, new } => {
                let mut object = ObjectBuilder::new();
                object.member("kind", kind.to_json());
                object.member("old", make_unsigned(*old));
                object.member("new", make_unsigned(*new));
                assert(object@ =~= seq![
                    ("kind"@, JsonView::Text(kind.name())),
                    ("old"@, unsigned(*old as nat)),
                    ("new"@, unsigned(*new as nat)),
                ]);
                make_tagged("Score", object.finish())
            },
            PlayerChanges::Level { old, new } => make_tagged(
                "Level",
                make_old_new(make_signed(*old as i64), make_signed(*new as i64)),
            ),
            PlayerChanges::WorldPosition { old, new } => make_tagged(
                "WorldPosition",
                make_old_new(old.to_json(), new.to_json()),
            ),
        }
    }
}

/// The trees of a list of player changes.
pub open spec fn player_changes_tree(changes: Seq<PlayerChangesView>) -> JsonView {
    trees(changes, |c: PlayerChangesView| c.tree())
}

/// The trees of a list of game state changes.
pub open spec fn game_changes_tree(changes: Seq<GameStateChangesView>) -> JsonView {
    trees(changes, |c: GameStateChangesView| c.tree())
}

/// The trees of a list of player snapshots.
pub open spec fn players_tree(players: Seq<PlayerDataView>) -> JsonView {
    trees(players, |p: PlayerDataView| p.tree())
}

/// The list of player changes as a JSON array.
pub fn player_changes_to_json(changes: &Vec<PlayerChanges>) -> (tree: Json)
    ensures
        tree@ == player_changes_tree(changes.deep_view()),
{
    let mut array = ArrayBuilder::new();
    let mut i: usize = 0;
    while i < changes.len()
        invariant
            i <= changes@.len(),
            array@.len() == i,
            forall|j: int| 0 <= j < i ==> array@[j] == changes@[j]@.tree(),
        decreases changes@.len() - i,
    {
        array.item(changes[i].to_json());
        i += 1;
    }
    assert(array@ =~= changes.deep_view().map_values(|c: PlayerChangesView| c.tree()));
    array.finish()
}

/// The list of game state changes as a JSON array.
pub fn game_changes_to_json(changes: &Vec<GameStateChanges>) -> (tree: Json)
    ensures
        tree@ == game_changes_tree(changes.deep_view()),
{
    let mut array = ArrayBuilder::new();
    let mut i: usize = 0;
    while i < changes.len()
        invariant
            i <= changes@.len(),
            array@.len() == i,
            forall|j: int| 0 <= j < i ==> array@[j] == changes@[j]@.tree(),
        decreases changes@.len() - i,
    {
        array.item(changes[i].to_json());
        i += 1;
    }
    assert(array@ =~= changes.deep_view().map_values(|c: GameStateChangesView| c.tree()));
    array.finish()
}

/// The list of player snapshots as a JSON array.
pub fn players_to_json(players: &Vec<PlayerData>) -> (tree: Json)
    ensures
        tree@ == players_tree(players.deep_view()),
{
    let mut array = ArrayBuilder::new();
    let mut i: usize = 0;
    while i < players.len()
        invariant
            i <= players@.len(),
            array@.len() == i,
            forall|j: int| 0 <= j < i ==> array@[j] == players@[j]@.tree(),
        decreases players@.len() - i,
    {
        array.item(players[i].to_json());
        i += 1;
    }
    assert(array@ =~= players.deep_view().map_values(|p: PlayerDataView| p.tree()));
    array.finish()
}

impl RconEventView {
    /// The event as a JSON value.
    pub open spec fn tree(self) -> JsonView {
        match self {
            RconEventView::Player { old, new, changes } => tagged(
                "Player"@,
                JsonView::Object(
                    seq![
                        ("old"@, old.tree()),
                        ("new"@, new.tree()),
                        ("changes"@, player_changes_tree(changes)),
                    ],
                ),
            ),
            RconEventView::Log(line) => tagged("Log"@, line.tree()),
            RconEventView::Game { changes, new_state } => tagged(
                "Game"@,
                JsonView::Object(
                    seq![
                        ("changes"@, game_changes_tree(changes)),
                        ("new_state"@, new_state.tree()),
                    ],
                ),
            ),
        }
    }
}

impl RconEvent {
    /// The event as a JSON value.
    pub fn to_json(&self) -> (tree: Json)
        ensures
            tree@ == self@.tree(),
    {
        match self {
            RconEvent::Player { old, new, changes } => {
                let mut object = ObjectBuilder::new();
                object.member("old", old.to_json());
                object.member("new", new.to_json());
                object.member("changes", player_changes_to_json(changes));
                assert(object@ =~= seq![
                    ("old"@, old@.tree()),
                    ("new"@, new@.tree()),
                    ("changes"@, player_changes_tree(changes.deep_view())),
                ]);
                make_tagged("Player", object.finish())
            },
            RconEvent::Log(line) => make_tagged("Log", line.to_json()),
            RconEvent::Game { changes, new_state } => {
                let mut object = ObjectBuilder::new();
                object.member("changes", game_changes_to_json(changes));
                object.member("new_state", new_state.to_json());
                assert(object@ =~= seq![
                    ("changes"@, game_changes_tree(changes.deep_view())),
                    ("new_state"@, new_state@.tree()),
                ]);
                make_tagged("Game", object.finish())
            },
        }
    }
}

impl RconResponse {
    /// The response as a JSON object.
    pub fn to_json(&self) -> (tree: Json)
        ensures
            tree@ == self@.tree(),
    {
        let mut object = ObjectBuilder::new();
        object.member("statusCode", make_signed(self.status_code as i64));
        object.text("statusMessage", &self.status_message);
        object.member("version", make_signed(self.version as i64));
        object.text("name", &self.name);
        object.text("contentBody", &self.content_body);
        assert(object@ =~= self@.tree()->Object_0);
        object.finish()
    }
}

impl CommandResponseKindView {
    /// The answer as a JSON value.
    pub open spec fn tree(self) -> JsonView {
        match self {
            CommandResponseKindView::Raw(response) => tagged("Raw"@, response.tree()),
            CommandResponseKindView::GetGameState(state) => tagged("GetGameState"@, state.tree()),
            CommandResponseKindView::GetPlayers(players) => tagged(
                "GetPlayers"@,
                players_tree(players),
            ),
            CommandResponseKindView::GetPlayer(player) => tagged(
                "GetPlayer"@,
                match player {
                    Some(p) => p.tree(),
                    None => JsonView::Null,
                },
            ),
            CommandResponseKindView::Success => JsonView::Text("Success"@),
            CommandResponseKindView::Error(text) => tagged("Error"@, JsonView::Text(text)),
        }
    }
}

impl CommandResponseKind {
    /// The answer as a JSON value.
    pub fn to_json(&self) -> (tree: Json)
        ensures
            tree@ == self@.tree(),
    {
        match self {
            CommandResponseKind::Raw(response) => make_tagged("Raw", response.to_json()),
            CommandResponseKind::GetGameState(state) => make_tagged(
                "GetGameState",
                state.to_json(),
            ),
            CommandResponseKind::GetPlayers(players) => make_tagged(
                "GetPlayers",
                players_to_json(players),
            ),
            CommandResponseKind::GetPlayer(player) => make_tagged(
                "GetPlayer",
                match player {
                    Some(p) => p.to_json(),
                    None => Json::Null,
                },
            ),
            CommandResponseKind::Success => Json::text("Success"),
            CommandResponseKind::Error(text) => make_tagged("Error", Json::Text(text.clone())),
        }
    }
}

impl ServerWsResponseView {
    /// The answer as a JSON value.
    pub open spec fn tree(self) -> JsonView {
        match self {
            ServerWsResponseView::Execute { failure, response } => tagged(
                "Execute"@,
                JsonView::Object(
                    seq![
                        ("failure"@, JsonView::Bool(failure)),
                        (
                            "response"@,
                            match response {
                                Some(r) => r.tree(),
                                None => JsonView::Null,
                            },
                        ),
                    ],
                ),
            ),
        }
    }
}

impl ServerWsResponse {
    /// The answer as a JSON value.
    pub fn to_json(&self) -> (tree: Json)
        ensures
            tree@ == self@.tree(),
    {
        match self {
            ServerWsResponse::Execute { failure, response } => {
                let mut object = ObjectBuilder::new();
                object.member("failure", Json::Bool(*failure));
                object.member(
                    "response",
                    match response {
                        Some(r) => r.to_json(),
                        None => Json::Null,
                    },
                );
                assert(object@ =~= self@.tree()->Object_0[0].1->Object_0);
                make_tagged("Execute", object.finish())
            },
        }
    }
}

impl ServerWsMessageView {
    /// The message as a JSON value.
    pub open spec fn tree(self) -> JsonView {
        match self {
            ServerWsMessageView::Rcon(event) => tagged("Rcon"@, event.tree()),
            ServerWsMessageView::Response { id, value } => tagged(
                "Response"@,
                JsonView::Object(seq![("id"@, JsonView::Text(id)), ("value"@, value.tree())]),
            ),
            ServerWsMessageView::Authenticated => tagged("Authenticated"@, JsonView::Null),
        }
    }

    /// The text of the frame that carries the message.
    pub open spec fn frame_text(self) -> Seq<char> {
        self.tree().text()
    }
}

impl ServerWsMessage {
    /// The message as a JSON value.
    pub fn to_json(&self) -> (tree: Json)
        ensures
            tree@ == self@.tree(),
    {
        match self {
            ServerWsMessage::Rcon(event) => make_tagged("Rcon", event.to_json()),
            ServerWsMessage::Response { id, value } => {
                let mut object = ObjectBuilder::new();
                object.text("id", id);
                object.member("value", value.to_json());
                assert(object@ =~= seq![("id"@, JsonView::Text(id@)), ("value"@, value@.tree())]);
                make_tagged("Response", object.finish())
            },
            ServerWsMessage::Authenticated => make_tagged("Authenticated", Json::Null),
        }
    }

    /// The text of the frame that carries the message.
    pub fn to_frame(&self) -> (text: String)
        ensures
            text@ == self@.frame_text(),
    {
        self.to_json().render()
    }
}

} // verus!

verus! {

/// The variant that a JSON value names, and its content: a string names a
/// variant without content, written here as `null`; an object with a single
/// member names the variant of that member.
pub open spec fn variant_of(tree: JsonView) -> Option<(Seq<char>, JsonView)> {
    match tree {
        JsonView::Text(tag) => Some((tag, JsonView::Null)),
        JsonView::Object(members) => if members.len() == 1 {
            Some((members[0].0, members[0].1))
        } else {
            None
        },
        _ => None,
    }
}

/// The two strings of an array of exactly two strings.
pub open spec fn text_pair(tree: JsonView) -> Option<(Seq<char>, Seq<char>)> {
    match tree {
        JsonView::Array(items) => if items.len() == 2 {
            match (items[0].as_text(), items[1].as_text()) {
                (Some(first), Some(second)) => Some((first, second)),
                _ => None,
            }
        } else {
            None
        },
        _ => None,
    }
}

/// Whether the value is an array without items.
pub open spec fn is_empty_array(tree: JsonView) -> bool {
    tree matches JsonView::Array(items) && items.len() == 0
}

/// The variant that a JSON value names, and its content; `None` as
/// content stands for `null`.
pub fn variant<'a>(tree: &'a Json) -> (r: Option<(&'a String, Option<&'a Json>)>)
    ensures
        match r {
            Some((tag, content)) => variant_of(tree@) == Some(
                (
                    tag@,
                    match content {
                        Some(c) => c@,
                        None => JsonView::Null,
                    },
                ),
            ),
            None => variant_of(tree@) is None,
        },
{
    match tree {
        Json::Text(tag) => Some((tag, None)),
        Json::Object(members) => if members.len() == 1 {
            Some((&members[0].0, Some(&members[0].1)))
        } else {
            None
        },
        _ => None,
    }
}

/// The two strings of an array of exactly two strings.
pub fn text_pair_of(tree: &Json) -> (r: Option<(String, String)>)
    ensures
        match r {
            Some((first, second)) => text_pair(tree@) == Some((first@, second@)),
            None => text_pair(tree@) is None,
        },
{
    match tree.as_array() {
        Some(items) => {
            if items.len() != 2 {
                return None;
            }
            match (items[0].as_str(), items[1].as_str()) {
                (Some(first), Some(second)) => Some((first.clone(), second.clone())),
                _ => None,
            }
        },
        None => None,
    }
}

} // verus!
