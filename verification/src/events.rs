//! Events that the service publishes about the game.

use vstd::prelude::*;
use crate::parsing::gamestate::{GameState, GameStateView};
use crate::parsing::playerinfo::{PlayerData, PlayerDataView, WorldPosition, WorldPositionView};
use crate::parsing::showlog::{LogLine, LogLineView};

verus! {

/// The categories of a player's score.
#[derive(Debug, Clone, Copy, PartialEq, Eq, Structural)]
pub enum ScoreKind {
    Combat,
    Offense,
    Defense,
    Support,
}

/// One field of a [`GameState`] that changed, with its value before and after.
#[derive(Debug, PartialEq, Eq)]
#[allow(inconsistent_fields)]
pub enum GameStateChanges {
    AlliedPlayers { old: u64, new: u64 },
    AxisPlayers { old: u64, new: u64 },
    AlliedScore { old: u64, new: u64 },
    AxisScore { old: u64, new: u64 },
    /// The map being played changed.
    CurrentMap { old: String, new: String },
    NextMap { old: String, new: String },
}

/// Mathematical model of a [`GameStateChanges`].
#[allow(inconsistent_fields)]
pub enum GameStateChangesView {
    AlliedPlayers { old: u64, new: u64 },
    AxisPlayers { old: u64, new: u64 },
    AlliedScore { old: u64, new: u64 },
    AxisScore { old: u64, new: u64 },
    CurrentMap { old: Seq<char>, new: Seq<char> },
    NextMap { old: Seq<char>, new: Seq<char> },
}

impl View for GameStateChanges {
    type V = GameStateChangesView;

    open spec fn view(&self) -> GameStateChangesView {
        match self {
            GameStateChanges::AlliedPlayers { old, new } => GameStateChangesView::AlliedPlayers {
                old: *old,
                new: *new,
            },
            GameStateChanges::AxisPlayers { old, new } => GameStateChangesView::AxisPlayers {
                old: *old,
                new: *new,
            },
            GameStateChanges::AlliedScore { old, new } => GameStateChangesView::AlliedScore {
                old: *old,
                new: *new,
            },
            GameStateChanges::AxisScore { old, new } => GameStateChangesView::AxisScore {
                old: *old,
                new: *new,
            },
            GameStateChanges::CurrentMap { old, new } => GameStateChangesView::CurrentMap {
                old: old@,
                new: new@,
            },
            GameStateChanges::NextMap { old, new } => GameStateChangesView::NextMap {
                old: old@,
                new: new@,
            },
        }
    }
}

impl DeepView for GameStateChanges {
    type V = GameStateChangesView;

    open spec fn deep_view(&self) -> GameStateChangesView {
        self@
    }
}

impl Clone for GameStateChanges {
    fn clone(&self) -> (copy: Self)
        ensures
            copy@ == self@,
    {
        match self {
            GameStateChanges::AlliedPlayers { old, new } => GameStateChanges::AlliedPlayers {
                old: *old,
                new: *new,
            },
            GameStateChanges::AxisPlayers { old, new } => GameStateChanges::AxisPlayers {
                old: *old,
                new: *new,
            },
            GameStateChanges::AlliedScore { old, new } => GameStateChanges::AlliedScore {
                old: *old,
                new: *new,
            },
            GameStateChanges::AxisScore { old, new } => GameStateChanges::AxisScore {
                old: *old,
                new: *new,
            },
            GameStateChanges::CurrentMap { old, new } => GameStateChanges::CurrentMap {
                old: old.clone(),
                new: new.clone(),
            },
            GameStateChanges::NextMap { old, new } => GameStateChanges::NextMap {
                old: old.clone(),
                new: new.clone(),
            },
        }
    }
}

/// One field of a [`PlayerData`] that changed, with its value before and after.
#[derive(Debug, PartialEq, Eq)]
#[allow(inconsistent_fields)]
pub enum PlayerChanges {
    Name { old: String, new: String },
    ClanTag { old: String, new: String },
    Platoon { old: String, new: String },
    Team { old: i32, new: i32 },
    Role { old: i32, new: i32 },
    Loadout { old: String, new: String },
    Kills { old: u64, new: u64 },
    Deaths { old: u64, new: u64 },
    Score { kind: ScoreKind, old: u64, new: u64 },
    Level { old: i32, new: i32 },
    WorldPosition { old: WorldPosition, new: WorldPosition },
}

/// Mathematical model of a [`PlayerChanges`].
#[allow(inconsistent_fields)]
pub enum PlayerChangesView {
    Name { old: Seq<char>, new: Seq<char> },
    ClanTag { old: Seq<char>, new: Seq<char> },
    Platoon { old: Seq<char>, new: Seq<char> },
    Team { old: i32, new: i32 },
    Role { old: i32, new: i32 },
    Loadout { old: Seq<char>, new: Seq<char> },
    Kills { old: u64, new: u64 },
    Deaths { old: u64, new: u64 },
    Score { kind: ScoreKind, old: u64, new: u64 },
    Level { old: i32, new: i32 },
    WorldPosition { old: WorldPositionView, new: WorldPositionView },
}

impl View for PlayerChanges {
    type V = PlayerChangesView;

    open spec fn view(&self) -> PlayerChangesView {
        match self {
            PlayerChanges::Name { old, new } => PlayerChangesView::Name { old: old@, new: new@ },
            PlayerChanges::ClanTag { old, new } => PlayerChangesView::ClanTag {
                old: old@,
                new: new@,
            },
            PlayerChanges::Platoon { old, new } => PlayerChangesView::Platoon {
                old: old@,
                new: new@,
            },
            PlayerChanges::Team { old, new } => PlayerChangesView::Team { old: *old, new: *new },
            PlayerChanges::Role { old, new } => PlayerChangesView::Role { old: *old, new: *new },
            PlayerChanges::Loadout { old, new } => PlayerChangesView::Loadout {
                old: old@,
                new: new@,
            },
            PlayerChanges::Kills { old, new } => PlayerChangesView::Kills { old: *old, new: *new },
            PlayerChanges::Deaths { old, new } => PlayerChangesView::Deaths {
                old: *old,
                new: *new,
            },
            PlayerChanges::Score { kind, old, new } => PlayerChangesView::Score {
                kind: *kind,
                old: *old,
                new: *new,
            },
            PlayerChanges::Level { old, new } => PlayerChangesView::Level { old: *old, new: *new },
            PlayerChanges::WorldPosition { old, new } => PlayerChangesView::WorldPosition {
                old: old@,
                new: new@,
            },
        }
    }
}

impl DeepView for PlayerChanges {
    type V = PlayerChangesView;

    open spec fn deep_view(&self) -> PlayerChangesView {
        self@
    }
}

impl Clone for PlayerChanges {
    fn clone(&self) -> (copy: Self)
        ensures
            copy@ == self@,
    {
        match self {
            PlayerChanges::Name { old, new } => PlayerChanges::Name {
                old: old.clone(),
                new: new.clone(),
            },
            PlayerChanges::ClanTag { old, new } => PlayerChanges::ClanTag {
                old: old.clone(),
                new: new.clone(),
            },
            PlayerChanges::Platoon { old, new } => PlayerChanges::Platoon {
                old: old.clone(),
                new: new.clone(),
            },
            PlayerChanges::Team { old, new } => PlayerChanges::Team { old: *old, new: *new },
            PlayerChanges::Role { old, new } => PlayerChanges::Role { old: *old, new: *new },
            PlayerChanges::Loadout { old, new } => PlayerChanges::Loadout {
                old: old.clone(),
                new: new.clone(),
            },
            PlayerChanges::Kills { old, new } => PlayerChanges::Kills { old: *old, new: *new },
            PlayerChanges::Deaths { old, new } => PlayerChanges::Deaths { old: *old, new: *new },
            PlayerChanges::Score { kind, old, new } => PlayerChanges::Score {
                kind: *kind,
                old: *old,
                new: *new,
            },
            PlayerChanges::Level { old, new } => PlayerChanges::Level { old: *old, new: *new },
            PlayerChanges::WorldPosition { old, new } => PlayerChanges::WorldPosition {
                old: old.clone(),
                new: new.clone(),
            },
        }
    }
}

/// Something that happened on the game server.
#[derive(Debug, PartialEq, Eq)]
#[allow(inconsistent_fields)]
pub enum RconEvent {
    /// A player's data changed; `changes` lists the fields that differ.
    Player { old: PlayerData, new: PlayerData, changes: Vec<PlayerChanges> },
    /// A new line of the admin log.
    Log(LogLine),
    /// The match changed; `changes` lists the fields that differ.
    Game { changes: Vec<GameStateChanges>, new_state: GameState },
}

/// Mathematical model of a [`RconEvent`].
#[allow(inconsistent_fields)]
pub enum RconEventView {
    Player { old: PlayerDataView, new: PlayerDataView, changes: Seq<PlayerChangesView> },
    Log(LogLineView),
    Game { changes: Seq<GameStateChangesView>, new_state: GameStateView },
}

impl View for RconEvent {
    type V = RconEventView;

    open spec fn view(&self) -> RconEventView {
        match self {
            RconEvent::Player { old, new, changes } => RconEventView::Player {
                old: old@,
                new: new@,
                changes: changes.deep_view(),
            },
            RconEvent::Log(line) => RconEventView::Log(line@),
            RconEvent::Game { changes, new_state } => RconEventView::Game {
                changes: changes.deep_view(),
                new_state: new_state@,
            },
        }
    }
}

impl DeepView for RconEvent {
    type V = RconEventView;

    open spec fn deep_view(&self) -> RconEventView {
        self@
    }
}

/// A copy of a list of player changes.
pub fn clone_player_changes(changes: &Vec<PlayerChanges>) -> (copy: Vec<PlayerChanges>)
    ensures
        copy.deep_view() == changes.deep_view(),
{
    let mut copy: Vec<PlayerChanges> = Vec::new();
    let mut i: usize = 0;
    while i < changes.len()
        invariant
            i <= changes@.len(),
            copy@.len() == i,
            forall|j: int| 0 <= j < i ==> copy@[j]@ == changes@[j]@,
        decreases changes@.len() - i,
    {
        copy.push(changes[i].clone());
        i += 1;
    }
    copy
}

/// A copy of a list of game state changes.
pub fn clone_game_changes(changes: &Vec<GameStateChanges>) -> (copy: Vec<GameStateChanges>)
    ensures
        copy.deep_view() == changes.deep_view(),
{
    let mut copy: Vec<GameStateChanges> = Vec::new();
    let mut i: usize = 0;
    while i < changes.len()
        invariant
            i <= changes@.len(),
            copy@.len() == i,
            forall|j: int| 0 <= j < i ==> copy@[j]@ == changes@[j]@,
        decreases changes@.len() - i,
    {
        copy.push(changes[i].clone());
        i += 1;
    }
    copy
}

impl Clone for RconEvent {
    fn clone(&self) -> (copy: Self)
        ensures
            copy@ == self@,
    {
        match self {
            RconEvent::Player { old, new, changes } => RconEvent::Player {
                old: old.clone(),
                new: new.clone(),
                changes: clone_player_changes(changes),
            },
            RconEvent::Log(line) => RconEvent::Log(line.clone()),
            RconEvent::Game { changes, new_state } => RconEvent::Game {
                changes: clone_game_changes(changes),
                new_state: new_state.clone(),
            },
        }
    }
}

} // verus!
