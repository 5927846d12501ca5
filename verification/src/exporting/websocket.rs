//! The rules of the WebSocket server: who gets in, what a client may ask
//! for, what it is sent, and how a command maps to the game server.
//!
//! The server itself, with its sockets and tasks, is the caller's.  It
//! hands over what arrived and does what the functions here decide.

use vstd::prelude::*;
use crate::commands::{
    broadcast_message_request,
    confirm,
    fetch_player,
    fetch_player_request,
    fetch_players,
    fetch_players_request,
    fetched_player,
    fetched_players,
    individual_message_request,
    information_body,
    kick_player_request,
    message_body,
    not_implemented_reason,
    punish_player_request,
    reason_body,
    request_of,
};
use crate::config::{AuthTokenView, FileConfig};
use crate::error::{RconError, RconErrorView};
use crate::exporting::auth::{
    authenticate_token,
    matching_token,
    may_receive,
    AuthHandle,
    AuthHandleView,
};
use crate::exporting::messages::{
    ClientWsMessage,
    ClientWsMessageView,
    ClientWsRequest,
    ClientWsRequestView,
    CommandRequestKind,
    CommandRequestKindView,
    CommandResponseKind,
    CommandResponseKindView,
    ServerWsMessage,
    ServerWsMessageView,
    ServerWsResponse,
    ServerWsResponseView,
};
use crate::messages::{RconRequest, RconRequestView, RconResponse, RconResponseView};
use crate::text::str_eq;

verus! {

/// Seconds that a client has to present its token.
pub const TOKEN_TIMEOUT_SECS: u64 = 3;

/// Seconds that a client has to present the password, where one is configured.
pub const PASSWORD_TIMEOUT_SECS: u64 = 5;

/// What came first on a new connection.
#[derive(Debug, PartialEq, Eq)]
pub enum FirstFrame {
    /// A text frame with this payload.
    Text(String),
    /// A frame of another kind.
    Other,
    /// Nothing within the time allowed.
    TimedOut,
    /// The connection ended or failed.
    Closed,
}

/// Mathematical model of a [`FirstFrame`].
pub enum FirstFrameView {
    Text(Seq<char>),
    Other,
    TimedOut,
    Closed,
}

impl View for FirstFrame {
    type V = FirstFrameView;

    open spec fn view(&self) -> FirstFrameView {
        match self {
            FirstFrame::Text(text) => FirstFrameView::Text(text@),
            FirstFrame::Other => FirstFrameView::Other,
            FirstFrame::TimedOut => FirstFrameView::TimedOut,
            FirstFrame::Closed => FirstFrameView::Closed,
        }
    }
}

/// Why the password check turned a client away.
#[derive(Debug, PartialEq, Eq)]
pub enum WebSocketError {
    /// The password is wrong; it is carried along where one was given.
    InvalidPassword(Option<String>),
    /// No password came within the time allowed.
    PasswordTimeout,
}

/// Mathematical model of a [`WebSocketError`].
pub enum WebSocketErrorView {
    InvalidPassword(Option<Seq<char>>),
    PasswordTimeout,
}

impl View for WebSocketError {
    type V = WebSocketErrorView;

    open spec fn view(&self) -> WebSocketErrorView {
        match self {
            WebSocketError::InvalidPassword(given) => WebSocketErrorView::InvalidPassword(
                match given {
                    Some(text) => Some(text@),
                    None => None,
                },
            ),
            WebSocketError::PasswordTimeout => WebSocketErrorView::PasswordTimeout,
        }
    }
}

/// The token that the first frame presents, if it is a text frame with the
/// value of a configured token.
pub open spec fn presented_token(first: FirstFrameView, tokens: Seq<AuthTokenView>) -> Option<
    AuthTokenView,
> {
    match first {
        FirstFrameView::Text(text) => matching_token(tokens, text),
        _ => None,
    }
}

/// Decides on the first frame of a connection: it must be a text frame
/// whose payload is the value of a configured token.  The connection is
/// dropped otherwise.
pub fn handle_token(first: &FirstFrame, config: &FileConfig) -> (r: Result<AuthHandle, ()>)
    ensures
        match r {
            Ok(handle) => match presented_token(first@, config.auth.tokens.deep_view()) {
                Some(token) => handle@ == (AuthHandleView { name: token.name, perms: token.perms }),
                None => false,
            },
            Err(_) => presented_token(first@, config.auth.tokens.deep_view()) is None,
        },
{
    match first {
        FirstFrame::Text(text) => authenticate_token(text.as_str(), config),
        _ => Err(()),
    }
}

/// What the password check makes of the first frame.
pub open spec fn password_checked(password: Seq<char>, first: FirstFrameView) -> Result<
    (),
    WebSocketErrorView,
> {
    match first {
        FirstFrameView::TimedOut => Err(WebSocketErrorView::PasswordTimeout),
        FirstFrameView::Closed => Err(WebSocketErrorView::InvalidPassword(None)),
        FirstFrameView::Other => Err(WebSocketErrorView::InvalidPassword(None)),
        FirstFrameView::Text(given) => if given == password {
            Ok(())
        } else {
            Err(WebSocketErrorView::InvalidPassword(Some(given)))
        },
    }
}

/// Checks the password that a client presents: the first
/// frame must be a text frame with exactly the password.
pub fn authenticate_with_password(password: &str, first: &FirstFrame) -> (r: Result<
    (),
    WebSocketError,
>)
    ensures
        match r {
            Ok(_) => password_checked(password@, first@) is Ok,
            Err(e) => password_checked(password@, first@) == Err::<(), WebSocketErrorView>(e@),
        },
{
    match first {
        FirstFrame::TimedOut => Err(WebSocketError::PasswordTimeout),
        FirstFrame::Closed => Err(WebSocketError::InvalidPassword(None)),
        FirstFrame::Other => Err(WebSocketError::InvalidPassword(None)),
        FirstFrame::Text(given) => if str_eq(given.as_str(), password) {
            Ok(())
        } else {
            Err(WebSocketError::InvalidPassword(Some(given.clone())))
        },
    }
}

/// What is done about a frame that a client sent.
#[derive(Debug, PartialEq, Eq)]
pub enum ClientAction {
    /// The frame is not a message; it is ignored.
    Ignore,
    /// The client may not run commands; the message is turned down.
    Reject,
    /// The command is run, and answered under the id if there is one.
    Dispatch { id: Option<String>, command: CommandRequestKind },
}

/// Mathematical model of a [`ClientAction`].
pub enum ClientActionView {
    Ignore,
    Reject,
    Dispatch { id: Option<Seq<char>>, command: CommandRequestKindView },
}

impl View for ClientAction {
    type V = ClientActionView;

    open spec fn view(&self) -> ClientActionView {
        match self {
            ClientAction::Ignore => ClientActionView::Ignore,
            ClientAction::Reject => ClientActionView::Reject,
            ClientAction::Dispatch { id, command } => ClientActionView::Dispatch {
                id: match id {
                    Some(id) => Some(id@),
                    None => None,
                },
                command: command@,
            },
        }
    }
}

/// What is done about the text frame `text` of a client with the handle
/// `auth`: a frame that is no message is ignored, a message of a client
/// that may not write is turned down, and any other is dispatched.
pub open spec fn client_action(text: Seq<char>, auth: AuthHandleView) -> ClientActionView {
    match ClientWsMessageView::of_text(text) {
        None => ClientActionView::Ignore,
        Some(ClientWsMessageView::Request { id, value: ClientWsRequestView::Execute(command) }) => {
            if auth.perms.write_rcon {
                ClientActionView::Dispatch { id, command }
            } else {
                ClientActionView::Reject
            }
        },
    }
}

/// Decides what is done about a text frame that a client sent.
pub fn accept_client_message(text: &str, auth: &AuthHandle) -> (action: ClientAction)
    ensures
        action@ == client_action(text@, auth@),
{
    let message = match ClientWsMessage::parse(text) {
        Some(message) => message,
        None => {
            return ClientAction::Ignore;
        },
    };
    if !auth.perms.write_rcon {
        return ClientAction::Reject;
    }
    match message {
        ClientWsMessage::Request { id, value } => match value {
            ClientWsRequest::Execute(command) => ClientAction::Dispatch { id, command },
        },
    }
}

/// The text frame that carries `message` to a client with the handle
/// `auth`, or nothing where the client is not to see it.
pub fn outbound(message: &ServerWsMessage, auth: &AuthHandle) -> (frame: Option<String>)
    ensures
        match frame {
            Some(text) => may_receive(auth@.perms, message@) && text@ == message@.frame_text(),
            None => !may_receive(auth@.perms, message@),
        },
{
    if auth.may_receive(message) {
        Some(message.to_frame())
    } else {
        None
    }
}

impl CommandRequestKindView {
    /// The request that the command sends to the game server, or why it sends none.
    pub open spec fn request(self) -> Result<RconRequestView, RconErrorView> {
        match self {
            CommandRequestKindView::Raw { name, content_body } => Ok(request_of(name, content_body)),
            CommandRequestKindView::GetPlayers => Ok(
                request_of(
                    "ServerInformation"@,
                    information_body("players"@, Seq::empty()).text(),
                ),
            ),
            CommandRequestKindView::GetPlayer(id) => Ok(
                request_of("ServerInformation"@, information_body("player"@, id).text()),
            ),
            CommandRequestKindView::Broadcast(message) => Ok(request_of("ServerBroadcast"@, message)),
            CommandRequestKindView::MessagePlayer(id, message) => Ok(
                request_of("MessagePlayer"@, message_body(id, message).text()),
            ),
            CommandRequestKindView::PunishPlayer(id, reason) => Ok(
                request_of("PunishPlayer"@, reason_body(id, reason).text()),
            ),
            CommandRequestKindView::KickPlayer(id, reason) => Ok(
                request_of("Kick"@, reason_body(id, reason).text()),
            ),
            CommandRequestKindView::GetGameState => Err(
                RconErrorView::InvalidData(not_implemented_reason()),
            ),
            CommandRequestKindView::TemporaryBan() => Err(
                RconErrorView::InvalidData(not_implemented_reason()),
            ),
            CommandRequestKindView::RemoveTemporaryBan() => Err(
                RconErrorView::InvalidData(not_implemented_reason()),
            ),
        }
    }

    /// What the command makes of the game server's response.
    pub open spec fn outcome(self, response: RconResponseView) -> Result<
        CommandResponseKindView,
        RconErrorView,
    > {
        match self {
            CommandRequestKindView::Raw { .. } => Ok(CommandResponseKindView::Raw(response)),
            CommandRequestKindView::GetPlayers => match fetched_players(response) {
                Ok(players) => Ok(CommandResponseKindView::GetPlayers(players)),
                Err(e) => Err(e),
            },
            CommandRequestKindView::GetPlayer(_) => match fetched_player(response) {
                Ok(player) => Ok(CommandResponseKindView::GetPlayer(Some(player))),
                Err(e) => Err(e),
            },
            CommandRequestKindView::Broadcast(_)
            | CommandRequestKindView::MessagePlayer(_, _)
            | CommandRequestKindView::PunishPlayer(_, _)
            | CommandRequestKindView::KickPlayer(_, _) => if response.is_ok() {
                Ok(CommandResponseKindView::Success)
            } else {
                Err(RconErrorView::Failure)
            },
            CommandRequestKindView::GetGameState => Err(
                RconErrorView::InvalidData(not_implemented_reason()),
            ),
            CommandRequestKindView::TemporaryBan() => Err(
                RconErrorView::InvalidData(not_implemented_reason()),
            ),
            CommandRequestKindView::RemoveTemporaryBan() => Err(
                RconErrorView::InvalidData(not_implemented_reason()),
            ),
        }
    }
}

/// The request that a client's command sends to the game server.
pub fn client_command_request(kind: &CommandRequestKind) -> (r: Result<RconRequest, RconError>)
    ensures
        match r {
            Ok(request) => kind@.request() == Ok::<RconRequestView, RconErrorView>(request@),
            Err(e) => kind@.request() == Err::<RconRequestView, RconErrorView>(e@),
        },
{
    match kind {
        CommandRequestKind::Raw { name, content_body } => Ok(
            RconRequest::new(name.as_str(), content_body.as_str()),
        ),
        CommandRequestKind::GetPlayers => Ok(fetch_players_request()),
        CommandRequestKind::GetPlayer(id) => Ok(fetch_player_request(id.as_str())),
        CommandRequestKind::Broadcast(message) => Ok(
            broadcast_message_request(message.as_str()),
        ),
        CommandRequestKind::MessagePlayer(id, message) => Ok(
            individual_message_request(id.as_str(), message.as_str()),
        ),
        CommandRequestKind::PunishPlayer(id, reason) => Ok(
            punish_player_request(id.as_str(), reason.as_str()),
        ),
        CommandRequestKind::KickPlayer(id, reason) => Ok(
            kick_player_request(id.as_str(), reason.as_str()),
        ),
        CommandRequestKind::GetGameState => Err(
            RconError::InvalidData("The command is not implemented."),
        ),
        CommandRequestKind::TemporaryBan() => Err(
            RconError::InvalidData("The command is not implemented."),
        ),
        CommandRequestKind::RemoveTemporaryBan() => Err(
            RconError::InvalidData("The command is not implemented."),
        ),
    }
}

/// What a client's command makes of the game server's response.
pub fn execute_client_command(kind: &CommandRequestKind, response: RconResponse) -> (r: Result<
    CommandResponseKind,
    RconError,
>)
    ensures
        match r {
            Ok(answer) => kind@.outcome(response@) == Ok::<CommandResponseKindView, RconErrorView>(
                answer@,
            ),
            Err(e) => kind@.outcome(response@) == Err::<CommandResponseKindView, RconErrorView>(e@),
        },
{
    match kind {
        CommandRequestKind::Raw { .. } => Ok(CommandResponseKind::Raw(response)),
        CommandRequestKind::GetPlayers => match fetch_players(&response) {
            Ok(players) => Ok(CommandResponseKind::GetPlayers(players)),
            Err(e) => Err(e),
        },
        CommandRequestKind::GetPlayer(_) => match fetch_player(&response) {
            Ok(player) => Ok(CommandResponseKind::GetPlayer(Some(player))),
            Err(e) => Err(e),
        },
        CommandRequestKind::Broadcast(_) => match confirm(&response) {
            Ok(_) => Ok(CommandResponseKind::Success),
            Err(e) => Err(e),
        },
        CommandRequestKind::MessagePlayer(_, _) => match confirm(&response) {
            Ok(_) => Ok(CommandResponseKind::Success),
            Err(e) => Err(e),
        },
        CommandRequestKind::PunishPlayer(_, _) => match confirm(&response) {
            Ok(_) => Ok(CommandResponseKind::Success),
            Err(e) => Err(e),
        },
        CommandRequestKind::KickPlayer(_, _) => match confirm(&response) {
            Ok(_) => Ok(CommandResponseKind::Success),
            Err(e) => Err(e),
        },
        CommandRequestKind::GetGameState => Err(
            RconError::InvalidData("The command is not implemented."),
        ),
        CommandRequestKind::TemporaryBan() => Err(
            RconError::InvalidData("The command is not implemented."),
        ),
        CommandRequestKind::RemoveTemporaryBan() => Err(
            RconError::InvalidData("The command is not implemented."),
        ),
    }
}

/// The answer that goes to the client: the result of the command, or a
/// failure without a response where the command could not be carried out.
pub open spec fn answer_of(
    outcome: Result<CommandResponseKindView, RconErrorView>,
) -> ServerWsResponseView {
    match outcome {
        Ok(answer) => ServerWsResponseView::Execute { failure: false, response: Some(answer) },
        Err(_) => ServerWsResponseView::Execute { failure: true, response: None },
    }
}

/// Wraps the outcome of a command into the message for the client that
/// asked.  A request without id gets no answer.
pub fn handle_client_message(
    id: Option<String>,
    outcome: Result<CommandResponseKind, RconError>,
) -> (message: Option<ServerWsMessage>)
    ensures
        match message {
            Some(m) => match id {
                Some(given) => m@ == (ServerWsMessageView::Response {
                    id: given@,
                    value: answer_of(
                        match outcome {
                            Ok(answer) => Ok(answer@),
                            Err(e) => Err(e@),
                        },
                    ),
                }),
                None => false,
            },
            None => id is None,
        },
{
    let value = match outcome {
        Ok(answer) => ServerWsResponse::Execute { failure: false, response: Some(answer) },
        Err(_) => ServerWsResponse::Execute { failure: true, response: None },
    };
    match id {
        Some(id) => Some(ServerWsMessage::Response { id, value }),
        None => None,
    }
}

} // verus!
