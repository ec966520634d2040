//! Logic of a game-server monitor: what the presence label says, where the
//! status is fetched from, how the poll cycle advances, and when the liveness
//! probe reports the monitor as stalled.

pub mod decimal;
pub mod config;
pub mod server;
pub mod presence;
pub mod liveness;
pub mod poll;
