//! Errors of the remote-administration client.

use vstd::prelude::*;

verus! {

/// What went wrong on the transport.
#[derive(Debug, Clone, Copy, PartialEq, Eq, Structural)]
pub enum IoErrorKind {
    /// The stream ended before a whole message had arrived.
    UnexpectedEof,
    /// The peer reset the connection.
    ConnectionReset,
    /// The session is closed: it takes no further part in any exchange.
    NotConnected,
    /// Any other transport failure.
    Other,
}

/// An error raised while talking to the game server.
#[derive(Debug, Clone, Copy, PartialEq, Eq)]
pub enum RconError {
    /// A frame or a response had an unexpected shape; the text says which.
    InvalidData(&'static str),
    /// A JSON body could not be parsed or lacked a field.
    InvalidJson,
    /// A text parser failed; the text names the grammar.
    ParsingError(&'static str),
    /// The transport failed.
    IoError(IoErrorKind),
    /// The server rejected the password.
    InvalidPassword,
    /// The server did not answer in time.
    TimeOut,
    /// The server answered with a failure status for an expected reason.
    Failure,
}

/// Mathematical model of a [`RconError`].
pub enum RconErrorView {
    InvalidData(Seq<char>),
    InvalidJson,
    ParsingError(Seq<char>),
    IoError(IoErrorKind),
    InvalidPassword,
    TimeOut,
    Failure,
}

impl View for RconError {
    type V = RconErrorView;

    open spec fn view(&self) -> RconErrorView {
        match *self {
            RconError::InvalidData(reason) => RconErrorView::InvalidData(reason@),
            RconError::InvalidJson => RconErrorView::InvalidJson,
            RconError::ParsingError(grammar) => RconErrorView::ParsingError(grammar@),
            RconError::IoError(kind) => RconErrorView::IoError(kind),
            RconError::InvalidPassword => RconErrorView::InvalidPassword,
            RconError::TimeOut => RconErrorView::TimeOut,
            RconError::Failure => RconErrorView::Failure,
        }
    }
}

impl RconErrorView {
    /// Errors that leave the byte stream in an unknown position.
    pub open spec fn is_transport(self) -> bool {
        self is IoError || self is TimeOut
    }
}

impl RconError {
    /// Whether the error leaves the byte stream in an unknown position.
    pub fn is_transport(&self) -> (b: bool)
        ensures
            b == self@.is_transport(),
    {
        match self {
            RconError::IoError(_) => true,
            RconError::TimeOut => true,
            _ => false,
        }
    }
}

} // verus!
