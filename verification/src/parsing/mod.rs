//! Parsers for the texts that the game server sends, and the values they produce.

pub mod gamestate;
pub mod player;
pub mod playerids;
pub mod playerinfo;
pub mod showlog;
pub mod utils;
