//! What the server reports about a player.

use vstd::prelude::*;
use crate::json::{Json, JsonView};

verus! {

/// Points of a player, by category.
#[derive(Debug, Clone, Copy, PartialEq, Eq, Structural)]
pub struct ScoreData {
    pub combat: u32,
    pub defense: u32,
    pub support: u32,
    pub offense: u32,
}

/// A position on the map.
///
/// Each coordinate is kept as a decimal text: for a position that was read
/// from JSON, the text that `serde_json` prints for the number that the
/// server sent.  Two positions are the same when their texts are.
#[derive(Debug, PartialEq, Eq)]
pub struct WorldPosition {
    pub x: String,
    pub y: String,
    pub z: String,
}

/// Mathematical model of a [`WorldPosition`].
pub struct WorldPositionView {
    pub x: Seq<char>,
    pub y: Seq<char>,
    pub z: Seq<char>,
}

impl View for WorldPosition {
    type V = WorldPositionView;

    open spec fn view(&self) -> WorldPositionView {
        WorldPositionView { x: self.x@, y: self.y@, z: self.z@ }
    }
}

impl DeepView for WorldPosition {
    type V = WorldPositionView;

    open spec fn deep_view(&self) -> WorldPositionView {
        self@
    }
}

impl Clone for WorldPosition {
    fn clone(&self) -> (copy: Self)
        ensures
            copy@ == self@,
    {
        WorldPosition { x: self.x.clone(), y: self.y.clone(), z: self.z.clone() }
    }
}

impl WorldPosition {
    /// Whether both positions are the same.
    pub fn same(&self, other: &WorldPosition) -> (b: bool)
        ensures
            b == (self@ == other@),
    {
        self.x == other.x && self.y == other.y && self.z == other.z
    }
}

/// One snapshot of a player.
#[derive(Debug, PartialEq, Eq)]
pub struct PlayerData {
    /// Name of the player.
    pub name: String,
    /// The player's clan tag.
    pub clan_tag: String,
    /// Unique id of the player.
    pub id: String,
    /// Platform the player is on.
    pub platform: String,
    /// Progression level.
    pub level: i32,
    /// Team the player is in.
    pub team: i32,
    /// Id in the online services.
    pub eosid: String,
    /// The player's current role.
    pub role: i32,
    /// The player's current platoon.
    pub platoon: String,
    pub kills: u64,
    pub deaths: u64,
    pub score: ScoreData,
    pub world_position: WorldPosition,
    pub loadout: String,
}

/// Mathematical model of a [`PlayerData`].
pub struct PlayerDataView {
    pub name: Seq<char>,
    pub clan_tag: Seq<char>,
    pub id: Seq<char>,
    pub platform: Seq<char>,
    pub level: i32,
    pub team: i32,
    pub eosid: Seq<char>,
    pub role: i32,
    pub platoon: Seq<char>,
    pub kills: u64,
    pub deaths: u64,
    pub score: ScoreData,
    pub world_position: WorldPositionView,
    pub loadout: Seq<char>,
}

impl View for PlayerData {
    type V = PlayerDataView;

    open spec fn view(&self) -> PlayerDataView {
        PlayerDataView {
            name: self.name@,
            clan_tag: self.clan_tag@,
            id: self.id@,
            platform: self.platform@,
            level: self.level,
            team: self.team,
            eosid: self.eosid@,
            role: self.role,
            platoon: self.platoon@,
            kills: self.kills,
            deaths: self.deaths,
            score: self.score,
            world_position: self.world_position@,
            loadout: self.loadout@,
        }
    }
}

impl DeepView for PlayerData {
    type V = PlayerDataView;

    open spec fn deep_view(&self) -> PlayerDataView {
        self@
    }
}

impl Clone for PlayerData {
    fn clone(&self) -> (copy: Self)
        ensures
            copy@ == self@,
    {
        PlayerData {
            name: self.name.clone(),
            clan_tag: self.clan_tag.clone(),
            id: self.id.clone(),
            platform: self.platform.clone(),
            level: self.level,
            team: self.team,
            eosid: self.eosid.clone(),
            role: self.role,
            platoon: self.platoon.clone(),
            kills: self.kills,
            deaths: self.deaths,
            score: self.score,
            world_position: self.world_position.clone(),
            loadout: self.loadout.clone(),
        }
    }
}

impl ScoreData {
    /// The score that a JSON value holds: an object with the unsigned
    /// integers `cOMBAT`, `defense`, `support` and `offense`.
    pub open spec fn of_tree(tree: JsonView) -> Option<ScoreData> {
        if tree.u32_of("cOMBAT"@) is Some && tree.u32_of("defense"@) is Some && tree.u32_of(
            "support"@,
        ) is Some && tree.u32_of("offense"@) is Some {
            Some(
                ScoreData {
                    combat: tree.u32_of("cOMBAT"@).unwrap(),
                    defense: tree.u32_of("defense"@).unwrap(),
                    support: tree.u32_of("support"@).unwrap(),
                    offense: tree.u32_of("offense"@).unwrap(),
                },
            )
        } else {
            None
        }
    }

    /// Reads a score from a JSON value.
    pub fn from_json(tree: &Json) -> (score: Option<ScoreData>)
        ensures
            score == ScoreData::of_tree(tree@),
    {
        let combat = match tree.u32_of("cOMBAT") {
            Some(v) => v,
            None => {
                return None;
            },
        };
        let defense = match tree.u32_of("defense") {
            Some(v) => v,
            None => {
                return None;
            },
        };
        let support = match tree.u32_of("support") {
            Some(v) => v,
            None => {
                return None;
            },
        };
        let offense = match tree.u32_of("offense") {
            Some(v) => v,
            None => {
                return None;
            },
        };
        Some(ScoreData { combat, defense, support, offense })
    }
}

impl WorldPositionView {
    /// The position that a JSON value holds: an object with the numbers `x`, `y` and `z`.
    pub open spec fn of_tree(tree: JsonView) -> Option<WorldPositionView> {
        if tree.number_of("x"@) is Some && tree.number_of("y"@) is Some && tree.number_of("z"@)
            is Some {
            Some(
                WorldPositionView {
                    x: tree.number_of("x"@).unwrap(),
                    y: tree.number_of("y"@).unwrap(),
                    z: tree.number_of("z"@).unwrap(),
                },
            )
        } else {
            None
        }
    }
}

impl WorldPosition {
    /// Reads a position from a JSON value.
    pub fn from_json(tree: &Json) -> (position: Option<WorldPosition>)
        ensures
            match position {
                Some(p) => WorldPositionView::of_tree(tree@) == Some(p@),
                None => WorldPositionView::of_tree(tree@) is None,
            },
    {
        let x = match tree.number_of("x") {
            Some(v) => v,
            None => {
                return None;
            },
        };
        let y = match tree.number_of("y") {
            Some(v) => v,
            None => {
                return None;
            },
        };
        let z = match tree.number_of("z") {
            Some(v) => v,
            None => {
                return None;
            },
        };
        Some(WorldPosition { x, y, z })
    }
}

impl PlayerDataView {
    /// The score that the member `scoreData` of `tree` holds.
    pub open spec fn score_of(tree: JsonView) -> Option<ScoreData> {
        match tree.member("scoreData"@) {
            Some(score) => ScoreData::of_tree(score),
            None => None,
        }
    }

    /// The position that the member `worldPosition` of `tree` holds.
    pub open spec fn position_of(tree: JsonView) -> Option<WorldPositionView> {
        match tree.member("worldPosition"@) {
            Some(position) => WorldPositionView::of_tree(position),
            None => None,
        }
    }

    /// Whether `tree` has every member of a player snapshot, each of its kind.
    pub open spec fn is_player(tree: JsonView) -> bool {
        &&& tree.text_of("name"@) is Some
        &&& tree.text_of("clanTag"@) is Some
        &&& tree.text_of("iD"@) is Some
        &&& tree.text_of("platform"@) is Some
        &&& tree.i32_of("level"@) is Some
        &&& tree.i32_of("team"@) is Some
        &&& tree.text_of("eOSId"@) is Some
        &&& tree.i32_of("role"@) is Some
        &&& tree.text_of("platoon"@) is Some
        &&& tree.u64_of("kills"@) is Some
        &&& tree.u64_of("deaths"@) is Some
        &&& PlayerDataView::score_of(tree) is Some
        &&& PlayerDataView::position_of(tree) is Some
        &&& tree.text_of("loadout"@) is Some
    }

    /// The snapshot that a JSON value holds.  Members that a snapshot does
    /// not have are ignored.
    pub open spec fn of_tree(tree: JsonView) -> Option<PlayerDataView> {
        if PlayerDataView::is_player(tree) {
            Some(
                PlayerDataView {
                    name: tree.text_of("name"@).unwrap(),
                    clan_tag: tree.text_of("clanTag"@).unwrap(),
                    id: tree.text_of("iD"@).unwrap(),
                    platform: tree.text_of("platform"@).unwrap(),
                    level: tree.i32_of("level"@).unwrap(),
                    team: tree.i32_of("team"@).unwrap(),
                    eosid: tree.text_of("eOSId"@).unwrap(),
                    role: tree.i32_of("role"@).unwrap(),
                    platoon: tree.text_of("platoon"@).unwrap(),
                    kills: tree.u64_of("kills"@).unwrap(),
                    deaths: tree.u64_of("deaths"@).unwrap(),
                    score: PlayerDataView::score_of(tree).unwrap(),
                    world_position: PlayerDataView::position_of(tree).unwrap(),
                    loadout: tree.text_of("loadout"@).unwrap(),
                },
            )
        } else {
            None
        }
    }
}

impl PlayerData {
    /// Reads a snapshot of a player from a JSON value.
    pub fn from_json(tree: &Json) -> (player: Option<PlayerData>)
        ensures
            match player {
                Some(p) => PlayerDataView::of_tree(tree@) == Some(p@),
                None => PlayerDataView::of_tree(tree@) is None,
            },
    {
        let name = match tree.text_of("name") {
            Some(v) => v,
            None => {
                return None;
            },
        };
        let clan_tag = match tree.text_of("clanTag") {
            Some(v) => v,
            None => {
                return None;
            },
        };
        let id = match tree.text_of("iD") {
            Some(v) => v,
            None => {
                return None;
            },
        };
        let platform = match tree.text_of("platform") {
            Some(v) => v,
            None => {
                return None;
            },
        };
        let level = match tree.i32_of("level") {
            Some(v) => v,
            None => {
                return None;
            },
        };
        let team = match tree.i32_of("team") {
            Some(v) => v,
            None => {
                return None;
            },
        };
        let eosid = match tree.text_of("eOSId") {
            Some(v) => v,
            None => {
                return None;
            },
        };
        let role = match tree.i32_of("role") {
            Some(v) => v,
            None => {
                return None;
            },
        };
        let platoon = match tree.text_of("platoon") {
            Some(v) => v,
            None => {
                return None;
            },
        };
        let kills = match tree.u64_of("kills") {
            Some(v) => v,
            None => {
                return None;
            },
        };
        let deaths = match tree.u64_of("deaths") {
            Some(v) => v,
            None => {
                return None;
            },
        };
        let score = match tree.get("scoreData") {
            Some(score) => match ScoreData::from_json(score) {
                Some(v) => v,
                None => {
                    return None;
                },
            },
            None => {
                return None;
            },
        };
        let world_position = match tree.get("worldPosition") {
            Some(position) => match WorldPosition::from_json(position) {
                Some(v) => v,
                None => {
                    return None;
                },
            },
            None => {
                return None;
            },
        };
        let loadout = match tree.text_of("loadout") {
            Some(v) => v,
            None => {
                return None;
            },
        };
        Some(
            PlayerData {
                name,
                clan_tag,
                id,
                platform,
                level,
                team,
                eosid,
                role,
                platoon,
                kills,
                deaths,
                score,
                world_position,
                loadout,
            },
        )
    }
}

} // verus!
