//! Middleware core between a game server's remote-administration protocol
//! and WebSocket clients.
//!
//! The service keeps a picture of the game that it refreshes by polling,
//! publishes what changes as events, and runs the commands of its clients
//! on the game server.  This library holds its rules:
//!
//! - [`codec`]: the framing and masking of messages on the wire;
//! - [`connection`], [`messages`], [`commands`]: a session with the game
//!   server, from the handshake to the typed commands;
//! - [`services::connection_pool`]: which session serves the next call, and
//!   what becomes of it afterwards;
//! - [`services::game_master`]: the picture of the game and the events
//!   that a new snapshot causes;
//! - [`polling`], [`manager`]: the rounds of the pollers and the book of
//!   those that run;
//! - [`exporting`]: the event queue, the access tokens and the messages of
//!   the WebSocket protocol;
//! - [`parsing`], [`json`], [`text`]: the texts that go in and out.
//!
//! The library performs no I/O and starts no task.  Callers read and write
//! sockets, sleep and spawn; they hand the bytes, texts and outcomes to the
//! functions here, which decide what happens next.

pub mod clock;
pub mod codec;
pub mod commands;
pub mod config;
pub mod connection;
pub mod constants;
pub mod credentials;
pub mod error;
pub mod events;
pub mod exporting;
pub mod json;
pub mod manager;
pub mod messages;
pub mod parsing;
pub mod polling;
pub mod services;
pub mod text;
pub mod utils;
