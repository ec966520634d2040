//! What the status provider reports of a game server.

use vstd::prelude::*;

verus! {

/// One player on the server.
#[derive(Clone, Debug)]
pub struct Players {
    pub name: String,
}

/// The status of a game server as the provider reports it.
#[derive(Clone, Debug)]
pub struct ServerInfo {
    pub name: String,
    pub map: String,
    pub password: bool,
    pub players: Vec<Players>,
    pub maxplayers: i32,
    pub connect: String,
    pub ping: i32,
}

/// Why a status could not be had.
#[derive(Clone, Copy, Debug, PartialEq, Eq, Structural)]
pub enum FetchError {
    /// The provider could not be reached, or did not answer in time.
    Network,
    /// The answer was not a server status.
    Decode,
}

impl FetchError {
    /// The kind of a failed fetch: a decode error where an answer came and
    /// could not be read as a status, a network error otherwise.
    pub fn classify(answer_unreadable: bool) -> (kind: FetchError)
        ensures
            kind == (if answer_unreadable {
                FetchError::Decode
            } else {
                FetchError::Network
            }),
    {
        if answer_unreadable {
            FetchError::Decode
        } else {
            FetchError::Network
        }
    }
}

impl ServerInfo {
    /// Number of players on the server.
    pub open spec fn player_count_spec(&self) -> nat {
        self.players@.len()
    }

    /// Number of players on the server.
    pub fn player_count(&self) -> (count: usize)
        ensures
            count == self.player_count_spec(),
    {
        self.players.len()
    }
}

} // verus!
