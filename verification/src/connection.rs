//! One session with the game server.
//!
//! A session owns its connection, a key for masking payloads and, once
//! logged in, an auth token.  What the connection is, is up to the caller:
//! the session keeps it and hands it out for reading and writing.
//!
//! A session is built in three steps: the server's greeting of up to four
//! bytes is discarded, `ServerConnect` is answered with the key in base64,
//! and `Login` is answered with the token.  After that every request
//! carries the token.
//!
//! The functions here do not touch the connection.  The caller sends what
//! [`RconConnection::encode`] returns, reads the eight header bytes and then
//! the payload, and hands what it read, or how reading failed, to
//! [`RconConnection::accept_header`] and [`RconConnection::accept_payload`].
//! Requests on one session are made one after the other.
//!
//! A session that failed on the transport, or whose login was refused, is
//! closed: every later step on it fails.

use vstd::prelude::*;
use base64::Engine;
use crate::codec::{
    decode_header,
    decode_text,
    encode_frame,
    frame,
    le_value,
    masked,
    oversize_reason,
    payload_text,
    xor_mask,
    FrameHeader,
    DEFAULT_MAX_PAYLOAD,
};
use crate::credentials::RconCredentials;
use crate::error::{IoErrorKind, RconError, RconErrorView};
use crate::messages::{
    bad_response_reason,
    RconRequest,
    RconRequestView,
    RconResponse,
    RconResponseView,
};
use crate::text::str_eq;

verus! {

/// How far a session has come.
#[derive(Debug, Clone, Copy, PartialEq, Eq, Structural)]
pub enum Phase {
    /// Nothing has been exchanged yet.
    Connecting,
    /// The key has arrived; the login is still to come.
    KeyExchanged,
    /// The login succeeded.
    Authenticated,
    /// The session failed and is of no further use.
    Closed,
}

/// What came of an attempt to read from the connection.
#[derive(Debug, PartialEq, Eq)]
pub enum Received {
    /// The bytes that were read.
    Bytes(Vec<u8>),
    /// Nothing arrived within the time allowed.
    TimedOut,
    /// The transport failed.
    Failed(IoErrorKind),
}

/// Mathematical model of a [`Received`].
pub enum ReceivedView {
    Bytes(Seq<u8>),
    TimedOut,
    Failed(IoErrorKind),
}

impl View for Received {
    type V = ReceivedView;

    open spec fn view(&self) -> ReceivedView {
        match self {
            Received::Bytes(bytes) => ReceivedView::Bytes(bytes@),
            Received::TimedOut => ReceivedView::TimedOut,
            Received::Failed(kind) => ReceivedView::Failed(*kind),
        }
    }
}

/// The bytes that the base64 text `text` stands for in the standard
/// alphabet with padding, if it is such a text.
pub uninterp spec fn base64_decoded(text: Seq<char>) -> Option<Seq<u8>>;

/// `BASE64_STANDARD.decode` turns a base64 text into bytes, or fails.
#[verifier::external_body]
fn base64_decode(text: &str) -> (bytes: Option<Vec<u8>>)
    ensures
        match bytes {
            Some(b) => base64_decoded(text@) == Some(b@),
            None => base64_decoded(text@) is None,
        },
{
    base64::prelude::BASE64_STANDARD.decode(text).ok()
}

/// Name of the command that asks for the key.
pub open spec fn connect_command() -> Seq<char> {
    "ServerConnect"@
}

/// Name of the command that logs in.
pub open spec fn login_command() -> Seq<char> {
    "Login"@
}

/// Reason reported when `ServerConnect` is answered with a failure status.
pub open spec fn connect_refused_reason() -> Seq<char> {
    "Server responded with failure status code on 'ServerConnect' command."@
}

/// Reason reported when the key is not base64.
pub open spec fn bad_key_reason() -> Seq<char> {
    "Failed to decode xor key."@
}

/// Reason reported when a command other than the two of the handshake is
/// tried before the login.
pub open spec fn not_authenticated_reason() -> Seq<char> {
    "The session is not authenticated."@
}

/// Reason reported when a step of the handshake comes out of turn.
pub open spec fn out_of_turn_reason() -> Seq<char> {
    "The step does not fit the state of the session."@
}

/// Mathematical model of a [`RconConnection`].
pub struct RconConnectionView {
    pub id: u64,
    pub xor_key: Seq<u8>,
    pub auth_token: Seq<char>,
    pub phase: Phase,
    pub max_payload: u32,
}

impl RconConnectionView {
    /// The session after it failed.
    pub open spec fn closed(self) -> RconConnectionView {
        RconConnectionView { phase: Phase::Closed, ..self }
    }

    /// Whether the session may send the command `name`: before the login
    /// only the two commands of the handshake, and nothing once it is closed.
    pub open spec fn may_send(self, name: Seq<char>) -> bool {
        match self.phase {
            Phase::Authenticated => true,
            Phase::Closed => false,
            _ => name == connect_command() || name == login_command(),
        }
    }

    /// The request as it is sent: with the session's token once logged in.
    pub open spec fn stamped(self, request: RconRequestView) -> RconRequestView {
        if self.phase == Phase::Authenticated {
            RconRequestView { auth_token: self.auth_token, ..request }
        } else {
            request
        }
    }

    /// The bytes to send for `request`, or why it cannot be sent.
    pub open spec fn encoded(self, message_id: u32, request: RconRequestView) -> Result<
        Seq<u8>,
        RconErrorView,
    > {
        if self.phase == Phase::Closed {
            Err(RconErrorView::IoError(IoErrorKind::NotConnected))
        } else if !self.may_send(request.name) {
            Err(RconErrorView::InvalidData(not_authenticated_reason()))
        } else if self.stamped(request).bytes().len() > u32::MAX {
            Err(RconErrorView::InvalidData(oversize_reason()))
        } else {
            Ok(frame(message_id, self.stamped(request).bytes(), self.xor_key))
        }
    }

    /// The session after the bytes of a header were read, and the header or the failure.
    pub open spec fn header_accepted(self, read: ReceivedView) -> (
        RconConnectionView,
        Result<FrameHeader, RconErrorView>,
    ) {
        if self.phase == Phase::Closed {
            (self, Err(RconErrorView::IoError(IoErrorKind::NotConnected)))
        } else {
            match read {
                ReceivedView::TimedOut => (self.closed(), Err(RconErrorView::TimeOut)),
                ReceivedView::Failed(kind) => (self.closed(), Err(RconErrorView::IoError(kind))),
                ReceivedView::Bytes(bytes) => if bytes.len() < 8 {
                    (self.closed(), Err(RconErrorView::IoError(IoErrorKind::UnexpectedEof)))
                } else if le_value(bytes.subrange(4, 8)) > self.max_payload {
                    (self.closed(), Err(RconErrorView::InvalidData(oversize_reason())))
                } else {
                    (
                        self,
                        Ok(
                            FrameHeader {
                                id: le_value(bytes.subrange(0, 4)) as u32,
                                length: le_value(bytes.subrange(4, 8)) as u32,
                            },
                        ),
                    )
                },
            }
        }
    }

    /// The session after the payload of a response was read, and the
    /// response or the failure.  A payload of another length than the header
    /// announced is a short read.
    pub open spec fn payload_accepted(self, expected: u32, read: ReceivedView) -> (
        RconConnectionView,
        Result<RconResponseView, RconErrorView>,
    ) {
        if self.phase == Phase::Closed {
            (self, Err(RconErrorView::IoError(IoErrorKind::NotConnected)))
        } else {
            match read {
                ReceivedView::TimedOut => (self.closed(), Err(RconErrorView::TimeOut)),
                ReceivedView::Failed(kind) => (self.closed(), Err(RconErrorView::IoError(kind))),
                ReceivedView::Bytes(bytes) => if bytes.len() != expected {
                    (self.closed(), Err(RconErrorView::IoError(IoErrorKind::UnexpectedEof)))
                } else {
                    match RconResponseView::of_text(payload_text(xor_mask(bytes, self.xor_key))) {
                        Some(response) => (self, Ok(response)),
                        None => (self, Err(RconErrorView::InvalidData(bad_response_reason()))),
                    }
                },
            }
        }
    }

    /// The session after the answer to `ServerConnect`, and whether the key was taken.
    pub open spec fn key_accepted(self, response: RconResponseView) -> (
        RconConnectionView,
        Result<(), RconErrorView>,
    ) {
        match self.phase {
            Phase::Closed => (self, Err(RconErrorView::IoError(IoErrorKind::NotConnected))),
            Phase::Connecting => if !response.is_ok() {
                (self.closed(), Err(RconErrorView::InvalidData(connect_refused_reason())))
            } else {
                match base64_decoded(response.content_body) {
                    Some(key) => (
                        RconConnectionView { xor_key: key, phase: Phase::KeyExchanged, ..self },
                        Ok(()),
                    ),
                    None => (self.closed(), Err(RconErrorView::InvalidData(bad_key_reason()))),
                }
            },
            _ => (self, Err(RconErrorView::InvalidData(out_of_turn_reason()))),
        }
    }

    /// The session after the answer to `Login`, and whether the login succeeded.
    pub open spec fn login_accepted(self, response: RconResponseView) -> (
        RconConnectionView,
        Result<(), RconErrorView>,
    ) {
        match self.phase {
            Phase::Closed => (self, Err(RconErrorView::IoError(IoErrorKind::NotConnected))),
            Phase::KeyExchanged => if !response.is_ok() {
                (self.closed(), Err(RconErrorView::InvalidPassword))
            } else {
                (
                    RconConnectionView {
                        auth_token: response.content_body,
                        phase: Phase::Authenticated,
                        ..self
                    },
                    Ok(()),
                )
            },
            _ => (self, Err(RconErrorView::InvalidData(out_of_turn_reason()))),
        }
    }
}

/// A closed session stays closed and fails at every step, whatever it is
/// given.  A session is closed from the moment its login is refused, so after
/// `InvalidPassword` no command on it succeeds any more.
pub proof fn lemma_closed_session_fails(
    session: RconConnectionView,
    message_id: u32,
    request: RconRequestView,
    response: RconResponseView,
    expected: u32,
    read: ReceivedView,
)
    ensures
        session.login_accepted(response).1 == Err::<(), RconErrorView>(
            RconErrorView::InvalidPassword,
        ) ==> session.login_accepted(response).0.phase == Phase::Closed,
        session.phase == Phase::Closed ==> {
            &&& session.encoded(message_id, request) is Err
            &&& session.header_accepted(read).1 is Err
            &&& session.header_accepted(read).0 == session
            &&& session.payload_accepted(expected, read).1 is Err
            &&& session.payload_accepted(expected, read).0 == session
            &&& session.key_accepted(response).1 is Err
            &&& session.key_accepted(response).0 == session
            &&& session.login_accepted(response).1 is Err
            &&& session.login_accepted(response).0 == session
        },
{
}

/// What a session sends, a peer that knows the session's key reads as the
/// request that was meant, with the session's token where it is logged in.
pub proof fn lemma_request_round_trip(
    session: RconConnectionView,
    message_id: u32,
    request: RconRequestView,
    cap: u32,
)
    requires
        session.encoded(message_id, request) is Ok,
        session.stamped(request).bytes().len() <= cap,
    ensures
        crate::codec::unframe(
            session.encoded(message_id, request)->Ok_0,
            session.xor_key,
            cap,
        ) == Ok::<(u32, Seq<u8>), RconErrorView>((message_id, session.stamped(request).bytes())),
{
    let payload = session.stamped(request).bytes();
    crate::codec::lemma_frame_round_trip(message_id, payload, session.xor_key, cap, Seq::empty());
}

/// A read that times out or fails closes the session.
pub proof fn lemma_failed_read_closes(session: RconConnectionView, expected: u32, read: ReceivedView)
    requires
        !(read is Bytes),
    ensures
        session.header_accepted(read).1 is Err,
        session.header_accepted(read).0.phase == Phase::Closed,
        session.payload_accepted(expected, read).1 is Err,
        session.payload_accepted(expected, read).0.phase == Phase::Closed,
{
}

/// One session with the game server, over a connection of type `T`.
pub struct RconConnection<T> {
    /// A unique id of the session.
    id: u64,
    /// The connection.  It closes when the session is dropped.
    link: T,
    /// The key that masks every payload; empty until the server has sent it.
    xor_key: Vec<u8>,
    /// The token sent with every request; empty until the login succeeded.
    auth_token: String,
    phase: Phase,
    /// The longest payload accepted from the server.
    max_payload: u32,
}

impl<T> View for RconConnection<T> {
    type V = RconConnectionView;

    closed spec fn view(&self) -> RconConnectionView {
        RconConnectionView {
            id: self.id,
            xor_key: self.xor_key@,
            auth_token: self.auth_token@,
            phase: self.phase,
            max_payload: self.max_payload,
        }
    }
}

/// The request that asks the server for the key.
pub fn connect_request() -> (request: RconRequest)
    ensures
        request@.name == connect_command(),
        request@.content_body == Seq::<char>::empty(),
        request@.auth_token == Seq::<char>::empty(),
        request@.version == crate::messages::protocol_version(),
{
    let request = RconRequest::new("ServerConnect", "");
    proof {
        reveal_strlit("");
    }
    request
}

/// The request that logs in with the password of `credentials`.
pub fn login_request(credentials: &RconCredentials) -> (request: RconRequest)
    ensures
        request@.name == login_command(),
        request@.content_body == credentials@.password,
        request@.auth_token == Seq::<char>::empty(),
        request@.version == crate::messages::protocol_version(),
{
    RconRequest::new("Login", credentials.password.as_str())
}

impl<T> RconConnection<T> {
    /// The connection that the session owns.
    pub closed spec fn link_of(&self) -> T {
        self.link
    }

    /// A session over `link` on which nothing has been exchanged yet.
    pub fn new(id: u64, link: T) -> (session: Self)
        ensures
            session.link_of() == link,
            session@ == (RconConnectionView {
                id,
                xor_key: Seq::empty(),
                auth_token: Seq::empty(),
                phase: Phase::Connecting,
                max_payload: DEFAULT_MAX_PAYLOAD,
            }),
    {
        Self::with_max_payload(id, link, DEFAULT_MAX_PAYLOAD)
    }

    /// A fresh session that accepts payloads of up to `max_payload` bytes.
    pub fn with_max_payload(id: u64, link: T, max_payload: u32) -> (session: Self)
        ensures
            session.link_of() == link,
            session@ == (RconConnectionView {
                id,
                xor_key: Seq::empty(),
                auth_token: Seq::empty(),
                phase: Phase::Connecting,
                max_payload,
            }),
    {
        Self {
            id,
            link,
            xor_key: Vec::new(),
            auth_token: String::new(),
            phase: Phase::Connecting,
            max_payload,
        }
    }

    /// The id of this session.
    pub fn id(&self) -> (id: u64)
        ensures
            id == self@.id,
    {
        self.id
    }

    /// How far the session has come.
    pub fn phase(&self) -> (phase: Phase)
        ensures
            phase == self@.phase,
    {
        self.phase
    }

    /// Whether the login has succeeded and the session has not failed since.
    pub fn is_authenticated(&self) -> (b: bool)
        ensures
            b == (self@.phase == Phase::Authenticated),
    {
        self.phase == Phase::Authenticated
    }

    /// Whether the session has failed.
    pub fn is_closed(&self) -> (b: bool)
        ensures
            b == (self@.phase == Phase::Closed),
    {
        self.phase == Phase::Closed
    }

    /// The key that masks the payloads.
    pub fn xor_key(&self) -> (key: &Vec<u8>)
        ensures
            key@ == self@.xor_key,
    {
        &self.xor_key
    }

    /// The token sent with every request.
    pub fn auth_token(&self) -> (token: &String)
        ensures
            token@ == self@.auth_token,
    {
        &self.auth_token
    }

    /// Closes the session after the transport failed while sending.
    pub fn abort(&mut self)
        ensures
            final(self)@ == old(self)@.closed(),
            final(self).link_of() == old(self).link_of(),
    {
        self.phase = Phase::Closed;
    }

    /// The connection, for reading and writing.
    pub fn link(&mut self) -> (link: &mut T)
        ensures
            *link == old(self).link_of(),
            final(self).link_of() == *final(link),
            final(self)@ == old(self)@,
    {
        &mut self.link
    }

    /// Ends the session and hands out its connection.
    pub fn into_link(self) -> (link: T)
        ensures
            link == self.link_of(),
    {
        self.link
    }

    /// Whether the session may send the command `name`.
    pub fn may_send(&self, name: &str) -> (b: bool)
        ensures
            b == self@.may_send(name@),
    {
        match self.phase {
            Phase::Authenticated => true,
            Phase::Closed => false,
            _ => str_eq(name, "ServerConnect") || str_eq(name, "Login"),
        }
    }

    /// The bytes to send for `request` as message `message_id`: the request
    /// with the session's token, framed and masked with the session's key.
    pub fn encode(&self, message_id: u32, request: RconRequest) -> (r: Result<Vec<u8>, RconError>)
        ensures
            match r {
                Ok(bytes) => self@.encoded(message_id, request@) == Ok::<Seq<u8>, RconErrorView>(
                    bytes@,
                ),
                Err(e) => self@.encoded(message_id, request@) == Err::<Seq<u8>, RconErrorView>(e@),
            },
    {
        if self.phase == Phase::Closed {
            return Err(RconError::IoError(IoErrorKind::NotConnected));
        }
        if !self.may_send(request.name.as_str()) {
            return Err(RconError::InvalidData("The session is not authenticated."));
        }
        let mut request = request;
        if self.phase == Phase::Authenticated {
            request.auth_token = self.auth_token.clone();
        }
        let payload = request.serialize();
        encode_frame(message_id, payload.as_slice(), self.xor_key.as_slice())
    }

    /// Takes the eight header bytes of a response, or the failure to read them.
    pub fn accept_header(&mut self, read: Received) -> (r: Result<FrameHeader, RconError>)
        ensures
            final(self).link_of() == old(self).link_of(),
            final(self)@ == old(self)@.header_accepted(read@).0,
            match r {
                Ok(header) => old(self)@.header_accepted(read@).1 == Ok::<
                    FrameHeader,
                    RconErrorView,
                >(header),
                Err(e) => old(self)@.header_accepted(read@).1 == Err::<FrameHeader, RconErrorView>(
                    e@,
                ),
            },
    {
        if self.phase == Phase::Closed {
            return Err(RconError::IoError(IoErrorKind::NotConnected));
        }
        match read {
            Received::TimedOut => {
                self.phase = Phase::Closed;
                Err(RconError::TimeOut)
            },
            Received::Failed(kind) => {
                self.phase = Phase::Closed;
                Err(RconError::IoError(kind))
            },
            Received::Bytes(bytes) => match decode_header(bytes.as_slice(), self.max_payload) {
                Ok(header) => Ok(header),
                Err(e) => {
                    self.phase = Phase::Closed;
                    Err(e)
                },
            },
        }
    }

    /// Takes the payload of a response of `expected` bytes, or the failure to read it.
    pub fn accept_payload(&mut self, expected: u32, read: Received) -> (r: Result<
        RconResponse,
        RconError,
    >)
        ensures
            final(self).link_of() == old(self).link_of(),
            final(self)@ == old(self)@.payload_accepted(expected, read@).0,
            match r {
                Ok(response) => old(self)@.payload_accepted(expected, read@).1 == Ok::<
                    RconResponseView,
                    RconErrorView,
                >(response@),
                Err(e) => old(self)@.payload_accepted(expected, read@).1 == Err::<
                    RconResponseView,
                    RconErrorView,
                >(e@),
            },
    {
        if self.phase == Phase::Closed {
            return Err(RconError::IoError(IoErrorKind::NotConnected));
        }
        match read {
            Received::TimedOut => {
                self.phase = Phase::Closed;
                Err(RconError::TimeOut)
            },
            Received::Failed(kind) => {
                self.phase = Phase::Closed;
                Err(RconError::IoError(kind))
            },
            Received::Bytes(bytes) => {
                if bytes.len() != expected as usize {
                    self.phase = Phase::Closed;
                    return Err(RconError::IoError(IoErrorKind::UnexpectedEof));
                }
                let plain = masked(bytes.as_slice(), self.xor_key.as_slice());
                let text = decode_text(plain.as_slice());
                RconResponse::parse(text.as_str())
            },
        }
    }

    /// Takes the answer to `ServerConnect`: its body is the key in base64.
    pub fn accept_key(&mut self, response: &RconResponse) -> (r: Result<(), RconError>)
        ensures
            final(self).link_of() == old(self).link_of(),
            final(self)@ == old(self)@.key_accepted(response@).0,
            match r {
                Ok(()) => old(self)@.key_accepted(response@).1 is Ok,
                Err(e) => old(self)@.key_accepted(response@).1 == Err::<(), RconErrorView>(e@),
            },
    {
        match self.phase {
            Phase::Closed => Err(RconError::IoError(IoErrorKind::NotConnected)),
            Phase::Connecting => {
                if response.status_code != 200 {
                    self.phase = Phase::Closed;
                    return Err(
                        RconError::InvalidData(
                            "Server responded with failure status code on 'ServerConnect' command.",
                        ),
                    );
                }
                match base64_decode(response.content_body.as_str()) {
                    Some(key) => {
                        self.xor_key = key;
                        self.phase = Phase::KeyExchanged;
                        Ok(())
                    },
                    None => {
                        self.phase = Phase::Closed;
                        Err(RconError::InvalidData("Failed to decode xor key."))
                    },
                }
            },
            _ => Err(RconError::InvalidData("The step does not fit the state of the session.")),
        }
    }

    /// Takes the answer to `Login`: its body is the auth token, and any
    /// status but success means that the password was refused.
    pub fn accept_login(&mut self, response: &RconResponse) -> (r: Result<(), RconError>)
        ensures
            final(self).link_of() == old(self).link_of(),
            final(self)@ == old(self)@.login_accepted(response@).0,
            match r {
                Ok(()) => old(self)@.login_accepted(response@).1 is Ok,
                Err(e) => old(self)@.login_accepted(response@).1 == Err::<(), RconErrorView>(e@),
            },
    {
        match self.phase {
            Phase::Closed => Err(RconError::IoError(IoErrorKind::NotConnected)),
            Phase::KeyExchanged => {
                if response.status_code != 200 {
                    self.phase = Phase::Closed;
                    return Err(RconError::InvalidPassword);
                }
                self.auth_token = response.content_body.clone();
                self.phase = Phase::Authenticated;
                Ok(())
            },
            _ => Err(RconError::InvalidData("The step does not fit the state of the session.")),
        }
    }
}

} // verus!
