//! The service's picture of the game, and the events that a new snapshot causes.
//!
//! The game master keeps the latest snapshot of every player it has seen and
//! of the match.  A snapshot that differs from the one before it in a
//! compared field causes an event that lists the differences.  Log lines are
//! passed on as they come.  Nothing is ever forgotten: a player who left
//! stays known.

use vstd::prelude::*;
use crate::events::{
    PlayerChanges,
    PlayerChangesView,
    RconEvent,
    RconEventView,
};
use crate::parsing::gamestate::{GameState, GameStateView};
use crate::parsing::playerinfo::{PlayerData, PlayerDataView};
use crate::parsing::showlog::{LogLine, LogLineView};
use crate::polling::gamestate::{detect_changes, game_changes};
pub use crate::polling::utils::detect;

verus! {

/// The fields in which `new` differs from `old`, in the order clan tag,
/// level, team, role, platoon, kills, deaths, world position, loadout.  Name,
/// id, platform and online id do not change within a match and are not
/// compared; neither is the score.
pub open spec fn player_changes(old: PlayerDataView, new: PlayerDataView) -> Seq<
    PlayerChangesView,
> {
    let clan_tag = if old.clan_tag != new.clan_tag {
        seq![PlayerChangesView::ClanTag { old: old.clan_tag, new: new.clan_tag }]
    } else {
        seq![]
    };
    let level = if old.level != new.level {
        seq![PlayerChangesView::Level { old: old.level, new: new.level }]
    } else {
        seq![]
    };
    let team = if old.team != new.team {
        seq![PlayerChangesView::Team { old: old.team, new: new.team }]
    } else {
        seq![]
    };
    let role = if old.role != new.role {
        seq![PlayerChangesView::Role { old: old.role, new: new.role }]
    } else {
        seq![]
    };
    let platoon = if old.platoon != new.platoon {
        seq![PlayerChangesView::Platoon { old: old.platoon, new: new.platoon }]
    } else {
        seq![]
    };
    let kills = if old.kills != new.kills {
        seq![PlayerChangesView::Kills { old: old.kills, new: new.kills }]
    } else {
        seq![]
    };
    let deaths = if old.deaths != new.deaths {
        seq![PlayerChangesView::Deaths { old: old.deaths, new: new.deaths }]
    } else {
        seq![]
    };
    let world_position = if old.world_position != new.world_position {
        seq![
            PlayerChangesView::WorldPosition {
                old: old.world_position,
                new: new.world_position,
            },
        ]
    } else {
        seq![]
    };
    let loadout = if old.loadout != new.loadout {
        seq![PlayerChangesView::Loadout { old: old.loadout, new: new.loadout }]
    } else {
        seq![]
    };
    clan_tag + level + team + role + platoon + kills + deaths + world_position + loadout
}

/// Whether `change` reports a compared field in which `new` differs from
/// `old`, with the values of that field in both.
pub open spec fn is_player_change(
    change: PlayerChangesView,
    old: PlayerDataView,
    new: PlayerDataView,
) -> bool {
    match change {
        PlayerChangesView::ClanTag { old: o, new: n } => o == old.clan_tag && n == new.clan_tag
            && o != n,
        PlayerChangesView::Level { old: o, new: n } => o == old.level && n == new.level && o != n,
        PlayerChangesView::Team { old: o, new: n } => o == old.team && n == new.team && o != n,
        PlayerChangesView::Role { old: o, new: n } => o == old.role && n == new.role && o != n,
        PlayerChangesView::Platoon { old: o, new: n } => o == old.platoon && n == new.platoon && o
            != n,
        PlayerChangesView::Kills { old: o, new: n } => o == old.kills && n == new.kills && o != n,
        PlayerChangesView::Deaths { old: o, new: n } => o == old.deaths && n == new.deaths && o
            != n,
        PlayerChangesView::WorldPosition { old: o, new: n } => o == old.world_position && n
            == new.world_position && o != n,
        PlayerChangesView::Loadout { old: o, new: n } => o == old.loadout && n == new.loadout && o
            != n,
        PlayerChangesView::Name { .. } => false,
        PlayerChangesView::Score { .. } => false,
    }
}

/// Whether two snapshots of a player agree in every field that is compared.
pub open spec fn same_player(old: PlayerDataView, new: PlayerDataView) -> bool {
    &&& old.clan_tag == new.clan_tag
    &&& old.level == new.level
    &&& old.team == new.team
    &&& old.role == new.role
    &&& old.platoon == new.platoon
    &&& old.kills == new.kills
    &&& old.deaths == new.deaths
    &&& old.world_position == new.world_position
    &&& old.loadout == new.loadout
}

/// Every reported change is a real one, and there is none exactly when the
/// snapshots agree in all compared fields.
pub proof fn lemma_player_changes_are_differences(old: PlayerDataView, new: PlayerDataView)
    ensures
        forall|i: int|
            0 <= i < player_changes(old, new).len() ==> is_player_change(
                #[trigger] player_changes(old, new)[i],
                old,
                new,
            ),
        player_changes(old, new).len() == 0 <==> same_player(old, new),
        player_changes(old, new).len() <= 9,
{
}

/// Compares two snapshots of a player field by field.
pub fn detect_player_changes(old: &PlayerData, new: &PlayerData) -> (changes: Vec<PlayerChanges>)
    ensures
        changes.deep_view() == player_changes(old@, new@),
{
    let ghost o = old@;
    let ghost n = new@;
    let mut changes: Vec<PlayerChanges> = Vec::new();
    let ghost clan_tag = if o.clan_tag != n.clan_tag {
        seq![PlayerChangesView::ClanTag { old: o.clan_tag, new: n.clan_tag }]
    } else {
        seq![]
    };
    detect(
        &mut changes,
        &old.clan_tag,
        &new.clan_tag,
        PlayerChanges::ClanTag { old: old.clan_tag.clone(), new: new.clan_tag.clone() },
    );
    let ghost level = if o.level != n.level {
        seq![PlayerChangesView::Level { old: o.level, new: n.level }]
    } else {
        seq![]
    };
    detect(
        &mut changes,
        &old.level,
        &new.level,
        PlayerChanges::Level { old: old.level, new: new.level },
    );
    assert(changes.deep_view() =~= clan_tag + level);
    let ghost team = if o.team != n.team {
        seq![PlayerChangesView::Team { old: o.team, new: n.team }]
    } else {
        seq![]
    };
    detect(&mut changes, &old.team, &new.team, PlayerChanges::Team { old: old.team, new: new.team });
    let ghost role = if o.role != n.role {
        seq![PlayerChangesView::Role { old: o.role, new: n.role }]
    } else {
        seq![]
    };
    detect(&mut changes, &old.role, &new.role, PlayerChanges::Role { old: old.role, new: new.role });
    let ghost platoon = if o.platoon != n.platoon {
        seq![PlayerChangesView::Platoon { old: o.platoon, new: n.platoon }]
    } else {
        seq![]
    };
    detect(
        &mut changes,
        &old.platoon,
        &new.platoon,
        PlayerChanges::Platoon { old: old.platoon.clone(), new: new.platoon.clone() },
    );
    let ghost kills = if o.kills != n.kills {
        seq![PlayerChangesView::Kills { old: o.kills, new: n.kills }]
    } else {
        seq![]
    };
    detect(
        &mut changes,
        &old.kills,
        &new.kills,
        PlayerChanges::Kills { old: old.kills, new: new.kills },
    );
    let ghost deaths = if o.deaths != n.deaths {
        seq![PlayerChangesView::Deaths { old: o.deaths, new: n.deaths }]
    } else {
        seq![]
    };
    detect(
        &mut changes,
        &old.deaths,
        &new.deaths,
        PlayerChanges::Deaths { old: old.deaths, new: new.deaths },
    );
    assert(changes.deep_view() =~= clan_tag + level + team + role + platoon + kills + deaths);
    let ghost world_position = if o.world_position != n.world_position {
        seq![PlayerChangesView::WorldPosition { old: o.world_position, new: n.world_position }]
    } else {
        seq![]
    };
    detect(
        &mut changes,
        &old.world_position,
        &new.world_position,
        PlayerChanges::WorldPosition {
            old: old.world_position.clone(),
            new: new.world_position.clone(),
        },
    );
    let ghost loadout = if o.loadout != n.loadout {
        seq![PlayerChangesView::Loadout { old: o.loadout, new: n.loadout }]
    } else {
        seq![]
    };
    detect(
        &mut changes,
        &old.loadout,
        &new.loadout,
        PlayerChanges::Loadout { old: old.loadout.clone(), new: new.loadout.clone() },
    );
    assert(changes.deep_view() =~= clan_tag + level + team + role + platoon + kills + deaths
        + world_position + loadout);
    changes
}

/// What the game master knows: the latest snapshot of every player by id,
/// and the latest snapshot of the match, if any.
pub struct GameMasterView {
    pub players: Map<Seq<char>, PlayerDataView>,
    pub game: Option<GameStateView>,
}

impl GameMasterView {
    /// The event that a new snapshot of a player causes: none for a player
    /// who is new or agrees with the snapshot before in all compared fields,
    /// otherwise one that carries both snapshots and their differences.
    pub open spec fn player_event(self, new: PlayerDataView) -> Option<RconEventView> {
        if self.players.contains_key(new.id) && player_changes(self.players[new.id], new).len()
            > 0 {
            Some(
                RconEventView::Player {
                    old: self.players[new.id],
                    new,
                    changes: player_changes(self.players[new.id], new),
                },
            )
        } else {
            None
        }
    }

    /// The knowledge after a new snapshot of a player: it takes the place of the one before.
    pub open spec fn with_player(self, new: PlayerDataView) -> GameMasterView {
        GameMasterView { players: self.players.insert(new.id, new), game: self.game }
    }

    /// The event that a new snapshot of the match causes: none for the first
    /// snapshot or one that agrees with the snapshot before in all compared
    /// fields, otherwise one that carries the new snapshot and the differences.
    pub open spec fn game_event(self, new: GameStateView) -> Option<RconEventView> {
        match self.game {
            Some(old) => if game_changes(old, new).len() > 0 {
                Some(RconEventView::Game { changes: game_changes(old, new), new_state: new })
            } else {
                None
            },
            None => None,
        }
    }

    /// The knowledge after a new snapshot of the match.
    pub open spec fn with_game(self, new: GameStateView) -> GameMasterView {
        GameMasterView { players: self.players, game: Some(new) }
    }

    /// The knowledge after a batch of player snapshots, taken one by one.
    pub open spec fn with_players(self, batch: Seq<PlayerDataView>) -> GameMasterView
        decreases batch.len(),
    {
        if batch.len() == 0 {
            self
        } else {
            self.with_players(batch.drop_last()).with_player(batch.last())
        }
    }

    /// The events that a batch of player snapshots causes, in the order of the batch.
    pub open spec fn player_events(self, batch: Seq<PlayerDataView>) -> Seq<RconEventView>
        decreases batch.len(),
    {
        if batch.len() == 0 {
            seq![]
        } else {
            let before = self.with_players(batch.drop_last());
            let events = self.player_events(batch.drop_last());
            match before.player_event(batch.last()) {
                Some(event) => events.push(event),
                None => events,
            }
        }
    }
}

/// A player event is raised only with changes, and each of them is a real one.
pub proof fn lemma_player_event_lists_differences(state: GameMasterView, new: PlayerDataView)
    ensures
        match state.player_event(new) {
            Some(RconEventView::Player { old, new: current, changes }) => {
                &&& changes.len() > 0
                &&& current == new
                &&& state.players.contains_key(new.id)
                &&& old == state.players[new.id]
                &&& forall|i: int|
                    0 <= i < changes.len() ==> is_player_change(#[trigger] changes[i], old, new)
            },
            Some(_) => false,
            None => true,
        },
{
    if state.players.contains_key(new.id) {
        lemma_player_changes_are_differences(state.players[new.id], new);
    }
}

/// The entry of a player is the latest snapshot of that player, and a new
/// snapshot touches no other entry: a player is known exactly when a
/// snapshot of that player was taken in.
pub proof fn lemma_latest_snapshot_is_kept(state: GameMasterView, new: PlayerDataView)
    ensures
        state.with_player(new).players.contains_key(new.id),
        state.with_player(new).players[new.id] == new,
        forall|id: Seq<char>|
            id != new.id ==> state.with_player(new).players.contains_key(id)
                == state.players.contains_key(id),
        forall|id: Seq<char>|
            id != new.id && state.players.contains_key(id) ==> state.with_player(new).players[id]
                == state.players[id],
        state.with_player(new).game == state.game,
{
}

/// The events that a batch of log lines causes: one per line, in order.
pub open spec fn log_events(lines: Seq<LogLineView>) -> Seq<RconEventView> {
    lines.map_values(|line: LogLineView| RconEventView::Log(line))
}

/// A new state handed to the game master.
#[derive(Debug, PartialEq, Eq)]
pub enum IncomingState {
    /// Snapshots of players.
    Players(Vec<PlayerData>),
    /// A snapshot of the match.
    GameState(GameState),
    /// New lines of the admin log.
    Logs(Vec<LogLine>),
}

/// Mathematical model of an [`IncomingState`].
pub enum IncomingStateView {
    Players(Seq<PlayerDataView>),
    GameState(GameStateView),
    Logs(Seq<LogLineView>),
}

impl View for IncomingState {
    type V = IncomingStateView;

    open spec fn view(&self) -> IncomingStateView {
        match self {
            IncomingState::Players(players) => IncomingStateView::Players(players.deep_view()),
            IncomingState::GameState(state) => IncomingStateView::GameState(state@),
            IncomingState::Logs(lines) => IncomingStateView::Logs(lines.deep_view()),
        }
    }
}

impl GameMasterView {
    /// The knowledge after taking in `incoming`.
    pub open spec fn after(self, incoming: IncomingStateView) -> GameMasterView {
        match incoming {
            IncomingStateView::Players(batch) => self.with_players(batch),
            IncomingStateView::GameState(state) => self.with_game(state),
            IncomingStateView::Logs(_) => self,
        }
    }

    /// The events published for `incoming`, in order.
    pub open spec fn events(self, incoming: IncomingStateView) -> Seq<RconEventView> {
        match incoming {
            IncomingStateView::Players(batch) => self.player_events(batch),
            IncomingStateView::GameState(state) => match self.game_event(state) {
                Some(event) => seq![event],
                None => seq![],
            },
            IncomingStateView::Logs(lines) => log_events(lines),
        }
    }
}

/// The map from id to snapshot that a list of snapshots with distinct ids stands for.
pub closed spec fn players_map(players: Seq<PlayerData>) -> Map<Seq<char>, PlayerDataView> {
    Map::new(
        |id: Seq<char>| exists|i: int| 0 <= i < players.len() && #[trigger] players[i].id@ == id,
        |id: Seq<char>|
            players[choose|i: int| 0 <= i < players.len() && #[trigger] players[i].id@ == id]@,
    )
}

/// Whether no two snapshots of the list have the same id.
pub closed spec fn distinct_ids(players: Seq<PlayerData>) -> bool {
    forall|i: int, j: int|
        0 <= i < players.len() && 0 <= j < players.len() && i != j ==> #[trigger] players[i].id@
            != #[trigger] players[j].id@
}

proof fn lemma_players_map_entry(players: Seq<PlayerData>, i: int)
    requires
        distinct_ids(players),
        0 <= i < players.len(),
    ensures
        players_map(players).contains_key(players[i].id@),
        players_map(players)[players[i].id@] == players[i]@,
{
}

proof fn lemma_players_map_push(players: Seq<PlayerData>, new: PlayerData)
    requires
        distinct_ids(players),
        forall|i: int| 0 <= i < players.len() ==> #[trigger] players[i].id@ != new.id@,
    ensures
        distinct_ids(players.push(new)),
        players_map(players.push(new)) == players_map(players).insert(new.id@, new@),
{
    let after = players.push(new);
    assert forall|id: Seq<char>|
        players_map(after).contains_key(id) <==> #[trigger] players_map(players).insert(
            new.id@,
            new@,
        ).contains_key(id) by {
        if players_map(after).contains_key(id) {
            let i = choose|i: int| 0 <= i < after.len() && #[trigger] after[i].id@ == id;
            assert(i < players.len() ==> players[i].id@ == id);
        }
        if players_map(players).contains_key(id) {
            let i = choose|i: int| 0 <= i < players.len() && #[trigger] players[i].id@ == id;
            assert(after[i].id@ == id);
        }
        if id == new.id@ {
            assert(after[players.len() as int].id@ == id);
        }
    }
    assert forall|id: Seq<char>| players_map(after).contains_key(id) implies #[trigger] players_map(
        after,
    )[id] == players_map(players).insert(new.id@, new@)[id] by {
        let i = choose|i: int| 0 <= i < after.len() && #[trigger] after[i].id@ == id;
        lemma_players_map_entry(after, i);
        if i < players.len() {
            lemma_players_map_entry(players, i);
        }
    }
}

proof fn lemma_players_map_update(players: Seq<PlayerData>, at: int, new: PlayerData)
    requires
        distinct_ids(players),
        0 <= at < players.len(),
        players[at].id@ == new.id@,
    ensures
        distinct_ids(players.update(at, new)),
        players_map(players.update(at, new)) == players_map(players).insert(new.id@, new@),
{
    let after = players.update(at, new);
    assert forall|i: int, j: int|
        0 <= i < after.len() && 0 <= j < after.len() && i != j implies #[trigger] after[i].id@
        != #[trigger] after[j].id@ by {
        assert(after[j].id@ == players[j].id@);
    }
    assert forall|id: Seq<char>|
        players_map(after).contains_key(id) <==> #[trigger] players_map(players).insert(
            new.id@,
            new@,
        ).contains_key(id) by {
        if players_map(after).contains_key(id) {
            let i = choose|i: int| 0 <= i < after.len() && #[trigger] after[i].id@ == id;
            assert(players[i].id@ == id);
        }
        if players_map(players).contains_key(id) {
            let i = choose|i: int| 0 <= i < players.len() && #[trigger] players[i].id@ == id;
            assert(after[i].id@ == id);
        }
    }
    assert forall|id: Seq<char>| players_map(after).contains_key(id) implies #[trigger] players_map(
        after,
    )[id] == players_map(players).insert(new.id@, new@)[id] by {
        let i = choose|i: int| 0 <= i < after.len() && #[trigger] after[i].id@ == id;
        lemma_players_map_entry(after, i);
        lemma_players_map_entry(players, i);
    }
}

/// The service's picture of the game.
pub struct GameMaster {
    /// The latest snapshot of every player seen so far; no id occurs twice.
    players: Vec<PlayerData>,
    /// The latest snapshot of the match.
    game: Option<GameState>,
}

impl View for GameMaster {
    type V = GameMasterView;

    closed spec fn view(&self) -> GameMasterView {
        GameMasterView {
            players: players_map(self.players@),
            game: match self.game {
                Some(state) => Some(state@),
                None => None,
            },
        }
    }
}

impl GameMaster {
    /// The invariant of the game master: it holds one snapshot per player.
    /// Every value that this module hands out satisfies it.
    pub closed spec fn well_formed(&self) -> bool {
        distinct_ids(self.players@)
    }

    /// A game master that knows nothing yet.
    pub fn new() -> (master: Self)
        ensures
            master.well_formed(),
            master@.players == Map::<Seq<char>, PlayerDataView>::empty(),
            master@.game is None,
    {
        let master = Self { players: Vec::new(), game: None };
        master
    }

    /// The position of the snapshot with the given id.
    fn find(&self, id: &String) -> (found: Option<usize>)
        ensures
            match found {
                Some(i) => i < self.players@.len() && self.players@[i as int].id@ == id@,
                None => forall|i: int|
                    0 <= i < self.players@.len() ==> #[trigger] self.players@[i].id@ != id@,
            },
    {
        let mut i: usize = 0;
        while i < self.players.len()
            invariant
                i <= self.players@.len(),
                forall|j: int| 0 <= j < i ==> #[trigger] self.players@[j].id@ != id@,
            decreases self.players@.len() - i,
        {
            if self.players[i].id == *id {
                return Some(i);
            }
            i += 1;
        }
        None
    }

    /// The latest snapshot of the player with the given id.
    pub fn player(&self, id: &String) -> (found: Option<&PlayerData>)
        requires
            self.well_formed(),
        ensures
            match found {
                Some(data) => self@.players.contains_key(id@) && self@.players[id@] == data@,
                None => !self@.players.contains_key(id@),
            },
    {
        match self.find(id) {
            Some(i) => {
                proof {
                    lemma_players_map_entry(self.players@, i as int);
                }
                Some(&self.players[i])
            },
            None => None,
        }
    }

    /// The latest snapshot of the match.
    pub fn current_state(&self) -> (state: Option<&GameState>)
        ensures
            match state {
                Some(game) => self@.game == Some(game@),
                None => self@.game is None,
            },
    {
        self.game.as_ref()
    }

    /// Takes in a new snapshot of one player and returns the event it causes.
    pub fn update_player(&mut self, new_data: PlayerData) -> (event: Option<RconEvent>)
        requires
            old(self).well_formed(),
        ensures
            final(self).well_formed(),
            final(self)@ == old(self)@.with_player(new_data@),
            match event {
                Some(e) => old(self)@.player_event(new_data@) == Some(e@),
                None => old(self)@.player_event(new_data@) is None,
            },
    {
        match self.find(&new_data.id) {
            None => {
                proof {
                    lemma_players_map_push(self.players@, new_data);
                }
                self.players.push(new_data);
                None
            },
            Some(i) => {
                proof {
                    lemma_players_map_entry(self.players@, i as int);
                    lemma_players_map_update(self.players@, i as int, new_data);
                }
                let changes = detect_player_changes(&self.players[i], &new_data);
                if changes.len() == 0 {
                    self.players.set(i, new_data);
                    None
                } else {
                    let event = RconEvent::Player {
                        old: self.players[i].clone(),
                        new: new_data.clone(),
                        changes,
                    };
                    self.players.set(i, new_data);
                    Some(event)
                }
            },
        }
    }

    /// Takes in a new snapshot of the match and returns the event it causes.
    pub fn update_game(&mut self, new_state: GameState) -> (event: Option<RconEvent>)
        requires
            old(self).well_formed(),
        ensures
            final(self).well_formed(),
            final(self)@ == old(self)@.with_game(new_state@),
            match event {
                Some(e) => old(self)@.game_event(new_state@) == Some(e@),
                None => old(self)@.game_event(new_state@) is None,
            },
    {
        let event = match &self.game {
            None => None,
            Some(previous) => {
                let changes = detect_changes(previous, &new_state);
                if changes.len() == 0 {
                    None
                } else {
                    Some(RconEvent::Game { changes, new_state: new_state.clone() })
                }
            },
        };
        self.game = Some(new_state);
        event
    }

    /// Passes a log line on as an event.
    pub fn update_logs(&mut self, new_log: LogLine) -> (event: RconEvent)
        ensures
            old(self).well_formed() ==> final(self).well_formed(),
            final(self)@ == old(self)@,
            event@ == RconEventView::Log(new_log@),
    {
        RconEvent::Log(new_log)
    }

    /// Takes in a new state and returns the events to publish, in order.
    pub fn update_state(&mut self, incoming: IncomingState) -> (events: Vec<RconEvent>)
        requires
            old(self).well_formed(),
        ensures
            final(self).well_formed(),
            final(self)@ == old(self)@.after(incoming@),
            events.deep_view() == old(self)@.events(incoming@),
    {
        let mut events: Vec<RconEvent> = Vec::new();
        match incoming {
            IncomingState::Players(players) => {
                let ghost batch = players.deep_view();
                let ghost start = self@;
                for player in it: players
                    invariant
                        self.well_formed(),
                        it.seq().len() == batch.len(),
                        forall|k: int| 0 <= k < batch.len() ==> (#[trigger] it.seq()[k])@ == batch[k],
                        self@ == start.with_players(batch.take(it.index() as int)),
                        events.deep_view() == start.player_events(batch.take(it.index() as int)),
                {
                    proof {
                        assert(batch.take(it.index() + 1).drop_last() =~= batch.take(
                            it.index() as int,
                        ));
                    }
                    match self.update_player(player) {
                        Some(event) => {
                            events.push(event);
                        },
                        None => {},
                    }
                }
                assert(batch.take(batch.len() as int) =~= batch);
            },
            IncomingState::GameState(state) => {
                match self.update_game(state) {
                    Some(event) => {
                        events.push(event);
                    },
                    None => {},
                }
            },
            IncomingState::Logs(logs) => {
                let ghost lines = logs.deep_view();
                for log in it: logs
                    invariant
                        self.well_formed(),
                        it.seq().len() == lines.len(),
                        forall|k: int| 0 <= k < lines.len() ==> (#[trigger] it.seq()[k])@ == lines[k],
                        self@ == old(self)@,
                        events@.len() == it.index(),
                        forall|j: int|
                            0 <= j < it.index() ==> (#[trigger] events@[j])@ == RconEventView::Log(
                                lines[j],
                            ),
                {
                    let event = self.update_logs(log);
                    events.push(event);
                }
            },
        }
        events
    }
}

} // verus!
