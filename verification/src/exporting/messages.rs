//! The messages exchanged with WebSocket clients.

use vstd::prelude::*;
use crate::events::{RconEvent, RconEventView};
use crate::messages::{RconResponse, RconResponseView};
use crate::parsing::gamestate::{GameState, GameStateView};
use crate::parsing::playerinfo::{PlayerData, PlayerDataView};

verus! {

/// A command that a client asks the service to run on the game server.
#[derive(Debug, PartialEq, Eq)]
pub enum CommandRequestKind {
    /// Send a request as it is and return the server's response.
    Raw { name: String, content_body: String },
    /// Get all players currently on the server.
    GetPlayers,
    /// Get the current state of the match.
    GetGameState,
    /// Get the data of the player with the given id.
    GetPlayer(String),
    /// Show a message to all players.
    Broadcast(String),
    /// Show a message to one player: the player's id, then the message.
    MessagePlayer(String, String),
    /// Punish a player by killing them: the player's id, then the reason.
    PunishPlayer(String, String),
    /// Kick a player from the server: the player's id, then the reason.
    KickPlayer(String, String),
    /// Ban a player for a time.
    TemporaryBan(),
    /// Lift a ban.
    RemoveTemporaryBan(),
}

/// Mathematical model of a [`CommandRequestKind`].
pub enum CommandRequestKindView {
    Raw { name: Seq<char>, content_body: Seq<char> },
    GetPlayers,
    GetGameState,
    GetPlayer(Seq<char>),
    Broadcast(Seq<char>),
    MessagePlayer(Seq<char>, Seq<char>),
    PunishPlayer(Seq<char>, Seq<char>),
    KickPlayer(Seq<char>, Seq<char>),
    TemporaryBan(),
    RemoveTemporaryBan(),
}

impl View for CommandRequestKind {
    type V = CommandRequestKindView;

    open spec fn view(&self) -> CommandRequestKindView {
        match self {
            CommandRequestKind::Raw { name, content_body } => CommandRequestKindView::Raw {
                name: name@,
                content_body: content_body@,
            },
            CommandRequestKind::GetPlayers => CommandRequestKindView::GetPlayers,
            CommandRequestKind::GetGameState => CommandRequestKindView::GetGameState,
            CommandRequestKind::GetPlayer(id) => CommandRequestKindView::GetPlayer(id@),
            CommandRequestKind::Broadcast(message) => CommandRequestKindView::Broadcast(message@),
            CommandRequestKind::MessagePlayer(id, message) => CommandRequestKindView::MessagePlayer(
                id@,
                message@,
            ),
            CommandRequestKind::PunishPlayer(id, reason) => CommandRequestKindView::PunishPlayer(
                id@,
                reason@,
            ),
            CommandRequestKind::KickPlayer(id, reason) => CommandRequestKindView::KickPlayer(
                id@,
                reason@,
            ),
            CommandRequestKind::TemporaryBan() => CommandRequestKindView::TemporaryBan(),
            CommandRequestKind::RemoveTemporaryBan() => CommandRequestKindView::RemoveTemporaryBan(),
        }
    }
}

/// A request of a client.
#[derive(Debug, PartialEq, Eq)]
pub enum ClientWsRequest {
    /// Run a command on the game server and return the response.
    Execute(CommandRequestKind),
}

/// Mathematical model of a [`ClientWsRequest`].
pub enum ClientWsRequestView {
    Execute(CommandRequestKindView),
}

impl View for ClientWsRequest {
    type V = ClientWsRequestView;

    open spec fn view(&self) -> ClientWsRequestView {
        match self {
            ClientWsRequest::Execute(kind) => ClientWsRequestView::Execute(kind@),
        }
    }
}

/// A message sent by a client.
#[derive(Debug, PartialEq, Eq)]
pub enum ClientWsMessage {
    /// A request.  The response carries the same id; without an id there is no response.
    Request { id: Option<String>, value: ClientWsRequest },
}

/// Mathematical model of a [`ClientWsMessage`].
pub enum ClientWsMessageView {
    Request { id: Option<Seq<char>>, value: ClientWsRequestView },
}

impl View for ClientWsMessage {
    type V = ClientWsMessageView;

    open spec fn view(&self) -> ClientWsMessageView {
        match self {
            ClientWsMessage::Request { id, value } => ClientWsMessageView::Request {
                id: match id {
                    Some(id) => Some(id@),
                    None => None,
                },
                value: value@,
            },
        }
    }
}

/// What the game server answered to a command.
#[derive(Debug, PartialEq, Eq)]
pub enum CommandResponseKind {
    /// The response as the server gave it.
    Raw(RconResponse),
    /// The current state of the match.
    GetGameState(GameState),
    /// All players currently on the server.
    GetPlayers(Vec<PlayerData>),
    /// The data of one player.
    GetPlayer(Option<PlayerData>),
    /// The command was carried out; it returns no data.
    Success,
    /// An error has occurred.
    Error(String),
}

/// Mathematical model of a [`CommandResponseKind`].
pub enum CommandResponseKindView {
    Raw(RconResponseView),
    GetGameState(GameStateView),
    GetPlayers(Seq<PlayerDataView>),
    GetPlayer(Option<PlayerDataView>),
    Success,
    Error(Seq<char>),
}

impl View for CommandResponseKind {
    type V = CommandResponseKindView;

    open spec fn view(&self) -> CommandResponseKindView {
        match self {
            CommandResponseKind::Raw(response) => CommandResponseKindView::Raw(response@),
            CommandResponseKind::GetGameState(state) => CommandResponseKindView::GetGameState(
                state@,
            ),
            CommandResponseKind::GetPlayers(players) => CommandResponseKindView::GetPlayers(
                players.deep_view(),
            ),
            CommandResponseKind::GetPlayer(player) => CommandResponseKindView::GetPlayer(
                match player {
                    Some(p) => Some(p@),
                    None => None,
                },
            ),
            CommandResponseKind::Success => CommandResponseKindView::Success,
            CommandResponseKind::Error(text) => CommandResponseKindView::Error(text@),
        }
    }
}

/// A copy of a list of player snapshots.
pub fn clone_players(players: &Vec<PlayerData>) -> (copy: Vec<PlayerData>)
    ensures
        copy.deep_view() == players.deep_view(),
{
    let mut copy: Vec<PlayerData> = Vec::new();
    let mut i: usize = 0;
    while i < players.len()
        invariant
            i <= players@.len(),
            copy@.len() == i,
            forall|j: int| 0 <= j < i ==> copy@[j]@ == players@[j]@,
        decreases players@.len() - i,
    {
        copy.push(players[i].clone());
        i += 1;
    }
    copy
}

impl Clone for CommandResponseKind {
    fn clone(&self) -> (copy: Self)
        ensures
            copy@ == self@,
    {
        match self {
            CommandResponseKind::Raw(response) => CommandResponseKind::Raw(response.clone()),
            CommandResponseKind::GetGameState(state) => CommandResponseKind::GetGameState(
                state.clone(),
            ),
            CommandResponseKind::GetPlayers(players) => CommandResponseKind::GetPlayers(
                clone_players(players),
            ),
            CommandResponseKind::GetPlayer(player) => CommandResponseKind::GetPlayer(
                match player {
                    Some(p) => Some(p.clone()),
                    None => None,
                },
            ),
            CommandResponseKind::Success => CommandResponseKind::Success,
            CommandResponseKind::Error(text) => CommandResponseKind::Error(text.clone()),
        }
    }
}

/// The service's answer to a request.
#[derive(Debug, PartialEq, Eq)]
pub enum ServerWsResponse {
    /// The outcome of a command.  `failure` says that the command could not
    /// be carried out; there is a response exactly when it could.
    Execute { failure: bool, response: Option<CommandResponseKind> },
}

/// Mathematical model of a [`ServerWsResponse`].
pub enum ServerWsResponseView {
    Execute { failure: bool, response: Option<CommandResponseKindView> },
}

impl View for ServerWsResponse {
    type V = ServerWsResponseView;

    open spec fn view(&self) -> ServerWsResponseView {
        match self {
            ServerWsResponse::Execute { failure, response } => ServerWsResponseView::Execute {
                failure: *failure,
                response: match response {
                    Some(r) => Some(r@),
                    None => None,
                },
            },
        }
    }
}

impl Clone for ServerWsResponse {
    fn clone(&self) -> (copy: Self)
        ensures
            copy@ == self@,
    {
        match self {
            ServerWsResponse::Execute { failure, response } => ServerWsResponse::Execute {
                failure: *failure,
                response: match response {
                    Some(r) => Some(r.clone()),
                    None => None,
                },
            },
        }
    }
}

/// A message that the service sends to its clients.
#[derive(Debug, PartialEq, Eq)]
pub enum ServerWsMessage {
    /// Something happened on the game server.
    Rcon(RconEvent),
    /// The answer to the request with the same id.
    Response { id: String, value: ServerWsResponse },
    /// The client has logged in.
    Authenticated,
}

/// Mathematical model of a [`ServerWsMessage`].
pub enum ServerWsMessageView {
    Rcon(RconEventView),
    Response { id: Seq<char>, value: ServerWsResponseView },
    Authenticated,
}

impl View for ServerWsMessage {
    type V = ServerWsMessageView;

    open spec fn view(&self) -> ServerWsMessageView {
        match self {
            ServerWsMessage::Rcon(event) => ServerWsMessageView::Rcon(event@),
            ServerWsMessage::Response { id, value } => ServerWsMessageView::Response {
                id: id@,
                value: value@,
            },
            ServerWsMessage::Authenticated => ServerWsMessageView::Authenticated,
        }
    }
}

impl DeepView for ServerWsMessage {
    type V = ServerWsMessageView;

    open spec fn deep_view(&self) -> ServerWsMessageView {
        self@
    }
}

impl Clone for ServerWsMessage {
    fn clone(&self) -> (copy: Self)
        ensures
            copy@ == self@,
    {
        match self {
            ServerWsMessage::Rcon(event) => ServerWsMessage::Rcon(event.clone()),
            ServerWsMessage::Response { id, value } => ServerWsMessage::Response {
                id: id.clone(),
                value: value.clone(),
            },
            ServerWsMessage::Authenticated => ServerWsMessage::Authenticated,
        }
    }
}

} // verus!
