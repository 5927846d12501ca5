//! What the service hands to its clients: the event queue, the tokens that
//! open it, and the messages of the WebSocket protocol.

pub mod auth;
pub mod client;
pub mod messages;
pub mod queue;
pub mod reading;
pub mod websocket;
pub mod wire;
