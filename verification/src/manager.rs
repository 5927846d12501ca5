//! The book of running pollers.
//!
//! Every poller has an id of its own; ids only grow.  The manager knows
//! which ids are running and which of them polls which player.  Starting
//! and cancelling the tasks is the caller's business: the manager says
//! which id to start or to cancel.

use vstd::prelude::*;
use crate::parsing::player::{Player, PlayerView};
use crate::parsing::showlog::{LogKind, LogKindView, LogLine, LogLineView};

verus! {

/// Mathematical model of a [`Manager`].
pub struct ManagerView {
    /// The id that was handed out last.
    pub running_id: u64,
    /// The ids of the pollers that run, in the order in which they were started.
    pub tasks: Seq<u64>,
    /// The players that are polled, each with the id of its poller.
    pub players: Seq<(PlayerView, u64)>,
}

/// The position of `player` in `players`.
pub open spec fn player_position(players: Seq<(PlayerView, u64)>, player: PlayerView) -> Option<
    int,
>
    decreases players.len(),
{
    if players.len() == 0 {
        None
    } else if players.last().0 == player {
        Some(players.len() - 1)
    } else {
        player_position(players.drop_last(), player)
    }
}

/// The position of `id` in `tasks`.
pub open spec fn task_position(tasks: Seq<u64>, id: u64) -> Option<int>
    decreases tasks.len(),
{
    if tasks.len() == 0 {
        None
    } else if tasks.last() == id {
        Some(tasks.len() - 1)
    } else {
        task_position(tasks.drop_last(), id)
    }
}

/// What the manager asks the caller to do.
#[derive(Debug, Clone, Copy, PartialEq, Eq, Structural)]
pub enum Lifecycle {
    /// Start a poller for the player under this id.
    Start(u64),
    /// Cancel the poller with this id.
    Stop(u64),
    /// Do nothing.
    Nothing,
}

impl ManagerView {
    /// The invariant of the manager: no id and no player occurs twice, no
    /// id is larger than the last one handed out, and every player has a
    /// poller of its own that runs.
    pub open spec fn well_formed(self) -> bool {
        &&& forall|i: int, j: int|
            0 <= i < j < self.tasks.len() ==> self.tasks[i] != self.tasks[j]
        &&& forall|i: int| 0 <= i < self.tasks.len() ==> self.tasks[i] <= self.running_id
        &&& forall|i: int, j: int|
            0 <= i < j < self.players.len() ==> self.players[i].0 != self.players[j].0
        &&& forall|i: int, j: int|
            0 <= i < j < self.players.len() ==> self.players[i].1 != self.players[j].1
        &&& forall|i: int|
            0 <= i < self.players.len() ==> self.tasks.contains(#[trigger] self.players[i].1)
    }

    /// Whether a poller runs for `player`.
    pub open spec fn polls(self, player: PlayerView) -> bool {
        player_position(self.players, player) is Some
    }

    /// Whether a new id can be handed out.
    pub open spec fn has_ids(self) -> bool {
        self.running_id < u64::MAX
    }

    /// The manager after a poller was started that polls no player.
    pub open spec fn with_task(self) -> ManagerView {
        if self.has_ids() {
            ManagerView {
                running_id: (self.running_id + 1) as u64,
                tasks: self.tasks.push((self.running_id + 1) as u64),
                players: self.players,
            }
        } else {
            self
        }
    }

    /// The manager after a poller for `player` was asked for: one is
    /// started unless the player is polled already.
    pub open spec fn with_player(self, player: PlayerView) -> ManagerView {
        if self.polls(player) || !self.has_ids() {
            self
        } else {
            ManagerView {
                running_id: (self.running_id + 1) as u64,
                tasks: self.tasks.push((self.running_id + 1) as u64),
                players: self.players.push((player, (self.running_id + 1) as u64)),
            }
        }
    }

    /// The manager after the poller with the given id was taken off the book.
    pub open spec fn without_task(self, id: u64) -> ManagerView {
        match task_position(self.tasks, id) {
            Some(at) => ManagerView { tasks: self.tasks.remove(at), ..self },
            None => self,
        }
    }

    /// The manager after the poller for `player` was stopped.
    pub open spec fn without_player(self, player: PlayerView) -> ManagerView {
        match player_position(self.players, player) {
            Some(at) => (ManagerView {
                players: self.players.remove(at),
                ..self
            }).without_task(self.players[at].1),
            None => self,
        }
    }

    /// What a log line asks for: a poller for a player who connected, and
    /// the end of the poller of a player who disconnected.
    pub open spec fn lifecycle(self, line: LogLineView) -> Lifecycle {
        match line.kind {
            LogKindView::Connect { player, has_connected } => if has_connected {
                if self.polls(player) || !self.has_ids() {
                    Lifecycle::Nothing
                } else {
                    Lifecycle::Start((self.running_id + 1) as u64)
                }
            } else {
                match player_position(self.players, player) {
                    Some(at) => Lifecycle::Stop(self.players[at].1),
                    None => Lifecycle::Nothing,
                }
            },
            _ => Lifecycle::Nothing,
        }
    }

    /// The manager after a log line was taken in.
    pub open spec fn after_log(self, line: LogLineView) -> ManagerView {
        match line.kind {
            LogKindView::Connect { player, has_connected } => if has_connected {
                self.with_player(player)
            } else {
                self.without_player(player)
            },
            _ => self,
        }
    }
}

proof fn lemma_task_position(tasks: Seq<u64>, id: u64)
    ensures
        match task_position(tasks, id) {
            Some(at) => 0 <= at < tasks.len() && tasks[at] == id,
            None => !tasks.contains(id),
        },
    decreases tasks.len(),
{
    if tasks.len() > 0 && tasks.last() != id {
        lemma_task_position(tasks.drop_last(), id);
        if task_position(tasks, id) is None {
            assert forall|i: int| 0 <= i < tasks.len() implies tasks[i] != id by {
                if i < tasks.len() - 1 {
                    assert(tasks.drop_last()[i] == tasks[i]);
                }
            }
        }
    }
}

proof fn lemma_player_position(players: Seq<(PlayerView, u64)>, player: PlayerView)
    ensures
        match player_position(players, player) {
            Some(at) => 0 <= at < players.len() && players[at].0 == player,
            None => forall|i: int| 0 <= i < players.len() ==> (#[trigger] players[i]).0 != player,
        },
    decreases players.len(),
{
    if players.len() > 0 && players.last().0 != player {
        lemma_player_position(players.drop_last(), player);
        if player_position(players, player) is None {
            assert forall|i: int| 0 <= i < players.len() implies (#[trigger] players[i]).0
                != player by {
                if i < players.len() - 1 {
                    assert(players.drop_last()[i] == players[i]);
                }
            }
        }
    }
}

/// Starting a poller keeps the book in order, and the id that is handed
/// out is larger than every id handed out before.
pub proof fn lemma_start_keeps_order(manager: ManagerView, player: PlayerView)
    requires
        manager.well_formed(),
    ensures
        manager.with_task().well_formed(),
        manager.with_player(player).well_formed(),
        manager.has_ids() ==> manager.with_player(player).polls(player),
        forall|i: int|
            0 <= i < manager.tasks.len() && manager.has_ids() ==> manager.tasks[i]
                < manager.with_task().running_id,
{
    lemma_player_position(manager.players, player);
    if manager.has_ids() {
        let id = (manager.running_id + 1) as u64;
        let started = manager.with_task();
        assert forall|i: int| 0 <= i < started.players.len() implies started.tasks.contains(
            #[trigger] started.players[i].1,
        ) by {
            let k = choose|k: int|
                0 <= k < manager.tasks.len() && manager.tasks[k] == manager.players[i].1;
            assert(started.tasks[k] == manager.players[i].1);
        }
        if !manager.polls(player) {
            let with = manager.with_player(player);
            assert forall|i: int| 0 <= i < with.players.len() implies with.tasks.contains(
                #[trigger] with.players[i].1,
            ) by {
                if i < manager.players.len() {
                    let k = choose|k: int|
                        0 <= k < manager.tasks.len() && manager.tasks[k] == manager.players[i].1;
                    assert(with.tasks[k] == with.players[i].1);
                } else {
                    assert(with.tasks[manager.tasks.len() as int] == id);
                }
            }
            assert forall|i: int, j: int| 0 <= i < j < with.players.len() implies with.players[i].1
                != with.players[j].1 by {}
        }
    }
}

/// Stopping the poller of a player keeps the book in order; the player is
/// not polled any more, and every other player is polled as before.
pub proof fn lemma_stop_keeps_order(manager: ManagerView, player: PlayerView)
    requires
        manager.well_formed(),
    ensures
        manager.without_player(player).well_formed(),
        !manager.without_player(player).polls(player),
{
    lemma_player_position(manager.players, player);
    match player_position(manager.players, player) {
        Some(at) => {
            let task = manager.players[at].1;
            lemma_task_position(manager.tasks, task);
            let t = task_position(manager.tasks, task).unwrap();
            let after = manager.without_player(player);
            assert forall|i: int| 0 <= i < after.players.len() implies after.tasks.contains(
                #[trigger] after.players[i].1,
            ) by {
                let source = if i < at {
                    i
                } else {
                    i + 1
                };
                let k = choose|k: int|
                    0 <= k < manager.tasks.len() && manager.tasks[k] == manager.players[source].1;
                if k < t {
                    assert(after.tasks[k] == manager.tasks[k]);
                } else {
                    assert(after.tasks[k - 1] == manager.tasks[k]);
                }
            }
            lemma_player_position(after.players, player);
        },
        None => {},
    }
}

/// Centrally manages all running pollers.
#[derive(Debug)]
pub struct Manager {
    running_id: u64,
    tasks: Vec<u64>,
    players: Vec<(Player, u64)>,
}

impl View for Manager {
    type V = ManagerView;

    closed spec fn view(&self) -> ManagerView {
        ManagerView {
            running_id: self.running_id,
            tasks: self.tasks@,
            players: Seq::new(
                self.players@.len(),
                |i: int| (self.players@[i].0@, self.players@[i].1),
            ),
        }
    }
}

impl Manager {
    /// A manager without pollers.
    pub fn new() -> (manager: Self)
        ensures
            manager@.well_formed(),
            manager@ == (ManagerView { running_id: 0, tasks: Seq::empty(), players: Seq::empty() }),
    {
        let manager = Self { running_id: 0, tasks: Vec::new(), players: Vec::new() };
        assert(manager@.players =~= Seq::<(PlayerView, u64)>::empty());
        manager
    }

    /// The position of `player` in the book.
    fn find_player(&self, player: &Player) -> (found: Option<usize>)
        ensures
            match found {
                Some(at) => player_position(self@.players, player@) == Some(at as int) && at
                    < self.players@.len(),
                None => player_position(self@.players, player@) is None,
            },
    {
        let ghost all = self@.players;
        let mut i: usize = self.players.len();
        assert(all.take(i as int) =~= all);
        while i > 0
            invariant
                i <= self.players@.len(),
                all == self@.players,
                player_position(all, player@) == player_position(all.take(i as int), player@),
            decreases i,
        {
            i -= 1;
            assert(all.take(i + 1).drop_last() =~= all.take(i as int));
            if self.players[i].0.same(player) {
                return Some(i);
            }
        }
        None
    }

    /// The position of `id` in the book.
    fn find_task(&self, id: u64) -> (found: Option<usize>)
        ensures
            match found {
                Some(at) => task_position(self@.tasks, id) == Some(at as int) && at
                    < self.tasks@.len(),
                None => task_position(self@.tasks, id) is None,
            },
    {
        let ghost all = self@.tasks;
        let mut i: usize = self.tasks.len();
        assert(all.take(i as int) =~= all);
        while i > 0
            invariant
                i <= self.tasks@.len(),
                all == self@.tasks,
                task_position(all, id) == task_position(all.take(i as int), id),
            decreases i,
        {
            i -= 1;
            assert(all.take(i + 1).drop_last() =~= all.take(i as int));
            if self.tasks[i] == id {
                return Some(i);
            }
        }
        None
    }

    /// Whether a poller runs for `player`.
    pub fn polls(&self, player: &Player) -> (b: bool)
        ensures
            b == self@.polls(player@),
    {
        self.find_player(player).is_some()
    }

    /// Puts a new poller that polls no player on the book and returns its
    /// id, or nothing where the ids have run out.
    pub fn start_poller(&mut self) -> (id: Option<u64>)
        requires
            old(self)@.well_formed(),
        ensures
            final(self)@.well_formed(),
            final(self)@ == old(self)@.with_task(),
            match id {
                Some(id) => old(self)@.has_ids() && id == old(self)@.running_id + 1,
                None => !old(self)@.has_ids(),
            },
    {
        proof {
            lemma_start_keeps_order(self@, arbitrary());
        }
        if self.running_id == u64::MAX {
            return None;
        }
        self.running_id = self.running_id + 1;
        self.tasks.push(self.running_id);
        Some(self.running_id)
    }

    /// Asks for a poller for `player`.  Returns the id under which the
    /// caller is to start one, or nothing where the player is polled
    /// already or the ids have run out.
    pub fn start_playerinfo_poller(&mut self, player: Player) -> (id: Option<u64>)
        requires
            old(self)@.well_formed(),
        ensures
            final(self)@.well_formed(),
            final(self)@ == old(self)@.with_player(player@),
            match id {
                Some(id) => !old(self)@.polls(player@) && old(self)@.has_ids() && id == old(
                    self,
                )@.running_id + 1,
                None => old(self)@.polls(player@) || !old(self)@.has_ids(),
            },
    {
        proof {
            lemma_start_keeps_order(self@, player@);
        }
        if self.find_player(&player).is_some() {
            return None;
        }
        if self.running_id == u64::MAX {
            return None;
        }
        self.running_id = self.running_id + 1;
        self.tasks.push(self.running_id);
        self.players.push((player, self.running_id));
        assert(self@.players =~= old(self)@.players.push((player@, self.running_id)));
        Some(self.running_id)
    }

    /// Takes the poller with the given id off the book.  Returns whether it was on it.
    fn kill_poller(&mut self, id: u64) -> (found: bool)
        ensures
            final(self)@ == old(self)@.without_task(id),
            found == (task_position(old(self)@.tasks, id) is Some),
    {
        match self.find_task(id) {
            Some(at) => {
                self.tasks.remove(at);
                true
            },
            None => false,
        }
    }

    /// Stops the poller of `player`.  Returns the id of the poller that
    /// the caller is to cancel, or nothing where the player is not polled.
    pub fn stop_playerinfo_poller(&mut self, player: &Player) -> (id: Option<u64>)
        requires
            old(self)@.well_formed(),
        ensures
            final(self)@.well_formed(),
            final(self)@ == old(self)@.without_player(player@),
            match id {
                Some(id) => match player_position(old(self)@.players, player@) {
                    Some(at) => id == old(self)@.players[at].1,
                    None => false,
                },
                None => !old(self)@.polls(player@),
            },
    {
        proof {
            lemma_stop_keeps_order(self@, player@);
        }
        let at = match self.find_player(player) {
            Some(at) => at,
            None => {
                return None;
            },
        };
        let (_, id) = self.players.remove(at);
        assert(self@.players =~= old(self)@.players.remove(at as int));
        self.kill_poller(id);
        Some(id)
    }

    /// Takes in a log line: a player who connected gets a poller, and the
    /// poller of a player who disconnected is stopped.  Returns what the
    /// caller is to do.
    pub fn handle_log(&mut self, line: &LogLine) -> (action: Lifecycle)
        requires
            old(self)@.well_formed(),
        ensures
            final(self)@.well_formed(),
            final(self)@ == old(self)@.after_log(line@),
            action == old(self)@.lifecycle(line@),
    {
        match &line.kind {
            LogKind::Connect { player, has_connected } => {
                if *has_connected {
                    match self.start_playerinfo_poller(player.clone()) {
                        Some(id) => Lifecycle::Start(id),
                        None => Lifecycle::Nothing,
                    }
                } else {
                    match self.stop_playerinfo_poller(player) {
                        Some(id) => Lifecycle::Stop(id),
                        None => Lifecycle::Nothing,
                    }
                }
            },
            _ => Lifecycle::Nothing,
        }
    }
}

/// What a poller polls.
#[derive(Debug, PartialEq, Eq)]
pub enum PollerTarget {
    /// The data of one player.
    Player(Player),
    /// The admin log.
    ShowLog,
    /// The state of the match.
    GameState,
}

/// Mathematical model of a [`PollerTarget`].
pub enum PollerTargetView {
    Player(PlayerView),
    ShowLog,
    GameState,
}

impl View for PollerTarget {
    type V = PollerTargetView;

    open spec fn view(&self) -> PollerTargetView {
        match self {
            PollerTarget::Player(player) => PollerTargetView::Player(player@),
            PollerTarget::ShowLog => PollerTargetView::ShowLog,
            PollerTarget::GameState => PollerTargetView::GameState,
        }
    }
}

/// The order to start a poller under the given id.
#[derive(Debug, PartialEq, Eq)]
pub struct StartOrder {
    pub id: u64,
    pub target: PollerTarget,
}

/// Mathematical model of a [`StartOrder`].
pub struct StartOrderView {
    pub id: u64,
    pub target: PollerTargetView,
}

impl View for StartOrder {
    type V = StartOrderView;

    open spec fn view(&self) -> StartOrderView {
        StartOrderView { id: self.id, target: self.target@ }
    }
}

impl DeepView for StartOrder {
    type V = StartOrderView;

    open spec fn deep_view(&self) -> StartOrderView {
        self@
    }
}

impl ManagerView {
    /// The manager after a poller was asked for for each of `players` in turn.
    pub open spec fn with_players(self, players: Seq<PlayerView>) -> ManagerView
        decreases players.len(),
    {
        if players.len() == 0 {
            self
        } else {
            self.with_players(players.drop_last()).with_player(players.last())
        }
    }

    /// The orders to start a poller for each of `players` that is not polled yet, in turn.
    pub open spec fn player_orders(self, players: Seq<PlayerView>) -> Seq<StartOrderView>
        decreases players.len(),
    {
        if players.len() == 0 {
            seq![]
        } else {
            let before = self.with_players(players.drop_last());
            let orders = self.player_orders(players.drop_last());
            if before.polls(players.last()) || !before.has_ids() {
                orders
            } else {
                orders.push(
                    StartOrderView {
                        id: (before.running_id + 1) as u64,
                        target: PollerTargetView::Player(players.last()),
                    },
                )
            }
        }
    }

    /// The order to start a poller that polls no player, if an id is left.
    pub open spec fn task_order(self, target: PollerTargetView) -> Seq<StartOrderView> {
        if self.has_ids() {
            seq![StartOrderView { id: (self.running_id + 1) as u64, target }]
        } else {
            seq![]
        }
    }

    /// The manager after polling was resumed for `players`.
    pub open spec fn resumed(self, players: Seq<PlayerView>) -> ManagerView {
        self.with_players(players).with_task().with_task()
    }

    /// The orders that resume polling: a poller for each of `players`, then
    /// one for the admin log and one for the state of the match.
    pub open spec fn resume_orders(self, players: Seq<PlayerView>) -> Seq<StartOrderView> {
        self.player_orders(players) + self.with_players(players).task_order(
            PollerTargetView::ShowLog,
        ) + self.with_players(players).with_task().task_order(PollerTargetView::GameState)
    }
}

impl Manager {
    /// Starts or resumes polling: a poller for each of `players`, then one
    /// for the admin log and one for the state of the match.  Returns the
    /// orders for the caller, who starts the pollers in this order and lets
    /// the configured cooldown pass between two of them.
    pub fn resume_polling(&mut self, players: Vec<Player>) -> (orders: Vec<StartOrder>)
        requires
            old(self)@.well_formed(),
        ensures
            final(self)@.well_formed(),
            final(self)@ == old(self)@.resumed(players.deep_view()),
            orders.deep_view() == old(self)@.resume_orders(players.deep_view()),
    {
        let ghost start = self@;
        let ghost all = players.deep_view();
        let mut orders: Vec<StartOrder> = Vec::new();
        for player in it: players
            invariant
                self@.well_formed(),
                it.seq().len() == all.len(),
                forall|k: int| 0 <= k < all.len() ==> (#[trigger] it.seq()[k])@ == all[k],
                self@ == start.with_players(all.take(it.index() as int)),
                orders.deep_view() == start.player_orders(all.take(it.index() as int)),
        {
            proof {
                assert(all.take(it.index() + 1).drop_last() =~= all.take(it.index() as int));
            }
            match self.start_playerinfo_poller(player.clone()) {
                Some(id) => {
                    let order = StartOrder { id, target: PollerTarget::Player(player) };
                    orders.push(order);
                },
                None => {},
            }
        }
        assert(all.take(all.len() as int) =~= all);
        match self.start_poller() {
            Some(id) => {
                orders.push(StartOrder { id, target: PollerTarget::ShowLog });
            },
            None => {},
        }
        match self.start_poller() {
            Some(id) => {
                orders.push(StartOrder { id, target: PollerTarget::GameState });
            },
            None => {},
        }
        orders
    }
}

/// What the caller is to do about a poller.
#[derive(Debug, PartialEq, Eq)]
pub enum PollerOrder {
    /// Start the poller of the order.
    Start(StartOrder),
    /// Cancel the poller with this id.
    Stop(u64),
}

/// Mathematical model of a [`PollerOrder`].
pub enum PollerOrderView {
    Start(StartOrderView),
    Stop(u64),
}

impl View for PollerOrder {
    type V = PollerOrderView;

    open spec fn view(&self) -> PollerOrderView {
        match self {
            PollerOrder::Start(order) => PollerOrderView::Start(order@),
            PollerOrder::Stop(id) => PollerOrderView::Stop(*id),
        }
    }
}

impl DeepView for PollerOrder {
    type V = PollerOrderView;

    open spec fn deep_view(&self) -> PollerOrderView {
        self@
    }
}

impl ManagerView {
    /// The order that a log line causes, if any.
    pub open spec fn order_of(self, line: LogLineView) -> Option<PollerOrderView> {
        match (self.lifecycle(line), line.kind) {
            (Lifecycle::Start(id), LogKindView::Connect { player, .. }) => Some(
                PollerOrderView::Start(
                    StartOrderView { id, target: PollerTargetView::Player(player) },
                ),
            ),
            (Lifecycle::Stop(id), _) => Some(PollerOrderView::Stop(id)),
            _ => None,
        }
    }

    /// The manager after the lines of a log were taken in, in order.
    pub open spec fn after_logs(self, lines: Seq<LogLineView>) -> ManagerView
        decreases lines.len(),
    {
        if lines.len() == 0 {
            self
        } else {
            self.after_logs(lines.drop_last()).after_log(lines.last())
        }
    }

    /// The orders that the lines of a log cause, in order.
    pub open spec fn orders_of(self, lines: Seq<LogLineView>) -> Seq<PollerOrderView>
        decreases lines.len(),
    {
        if lines.len() == 0 {
            seq![]
        } else {
            let orders = self.orders_of(lines.drop_last());
            match self.after_logs(lines.drop_last()).order_of(lines.last()) {
                Some(order) => orders.push(order),
                None => orders,
            }
        }
    }
}

impl Manager {
    /// Takes in the lines of a log, in order, and returns what the caller
    /// is to do: start a poller for each player who connected and is not
    /// polled yet, and cancel the poller of each player who disconnected.
    pub fn handle_logs(&mut self, lines: &Vec<LogLine>) -> (orders: Vec<PollerOrder>)
        requires
            old(self)@.well_formed(),
        ensures
            final(self)@.well_formed(),
            final(self)@ == old(self)@.after_logs(lines.deep_view()),
            orders.deep_view() == old(self)@.orders_of(lines.deep_view()),
    {
        let ghost start = self@;
        let ghost all = lines.deep_view();
        let mut orders: Vec<PollerOrder> = Vec::new();
        let mut i: usize = 0;
        while i < lines.len()
            invariant
                i <= lines@.len(),
                all == lines.deep_view(),
                self@.well_formed(),
                self@ == start.after_logs(all.take(i as int)),
                orders.deep_view() == start.orders_of(all.take(i as int)),
            decreases lines@.len() - i,
        {
            proof {
                assert(all.take(i + 1).drop_last() =~= all.take(i as int));
            }
            let line = &lines[i];
            match self.handle_log(line) {
                Lifecycle::Start(id) => {
                    match &line.kind {
                        LogKind::Connect { player, .. } => {
                            let order = PollerOrder::Start(
                                StartOrder { id, target: PollerTarget::Player(player.clone()) },
                            );
                            orders.push(order);
                        },
                        _ => {},
                    }
                },
                Lifecycle::Stop(id) => {
                    orders.push(PollerOrder::Stop(id));
                },
                Lifecycle::Nothing => {},
            }
            i += 1;
        }
        assert(all.take(all.len() as int) =~= all);
        orders
    }
}

} // verus!
