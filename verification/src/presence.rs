//! What the monitor shows of the watched server: a label for a known status,
//! and a fixed one for a status that could not be had.

use vstd::prelude::*;
use vstd::string::*;
use crate::decimal::{decimal_of_int, decimal_of_nat, push_decimal_i64, push_decimal_u64};
use crate::server::{FetchError, ServerInfo};

verus! {

/// What is shown after one fetch.
#[derive(Clone, Debug)]
pub enum Presentation {
    /// The server answered.
    Known { players_current: usize, players_max: i32, map: String },
    /// The server could not be found.
    Unknown,
}

/// A presentation as plain values.
pub enum PresentationModel {
    Known { players_current: nat, players_max: int, map: Seq<char> },
    Unknown,
}

impl View for Presentation {
    type V = PresentationModel;

    open spec fn view(&self) -> PresentationModel {
        match *self {
            Presentation::Known { players_current, players_max, map } => PresentationModel::Known {
                players_current: players_current as nat,
                players_max: players_max as int,
                map: map@,
            },
            Presentation::Unknown => PresentationModel::Unknown,
        }
    }
}

/// The label of a known status: players present, a slash, the most the
/// server takes, then the map after a dash between two spaces.
pub open spec fn known_label_text(players: nat, max_players: int, map: Seq<char>) -> Seq<char> {
    decimal_of_nat(players) + seq!['/'] + decimal_of_int(max_players) + seq![' ', '-', ' '] + map
}

/// The label shown while the server cannot be found.
pub open spec fn unknown_label_text() -> Seq<char> {
    "¯\\_(ツ)_/¯ server not found"@
}

/// The label of a presentation.
pub open spec fn label_text(p: PresentationModel) -> Seq<char> {
    match p {
        PresentationModel::Known { players_current, players_max, map } => known_label_text(
            players_current,
            players_max,
            map,
        ),
        PresentationModel::Unknown => unknown_label_text(),
    }
}

/// What a status is presented as.
pub open spec fn presentation_of_status(info: ServerInfo) -> PresentationModel {
    PresentationModel::Known {
        players_current: info.players@.len(),
        players_max: info.maxplayers as int,
        map: info.map@,
    }
}

/// What the outcome of a fetch is presented as: a status as itself, any
/// failure as unknown.
pub open spec fn presentation_of_outcome(
    outcome: Result<ServerInfo, FetchError>,
) -> PresentationModel {
    match outcome {
        Ok(info) => presentation_of_status(info),
        Err(_) => PresentationModel::Unknown,
    }
}

impl Presentation {
    /// Presents a status.
    pub fn of_status(info: &ServerInfo) -> (p: Presentation)
        ensures
            p@ == presentation_of_status(*info),
    {
        Presentation::Known {
            players_current: info.player_count(),
            players_max: info.maxplayers,
            map: info.map.clone(),
        }
    }

    /// Presents the outcome of a fetch.
    pub fn of_outcome(outcome: &Result<ServerInfo, FetchError>) -> (p: Presentation)
        ensures
            p@ == presentation_of_outcome(*outcome),
    {
        match outcome {
            Ok(info) => Presentation::of_status(info),
            Err(_) => Presentation::Unknown,
        }
    }

    /// The label to publish for this presentation.
    pub fn label(&self) -> (text: String)
        ensures
            text@ == label_text(self@),
    {
        match self {
            Presentation::Known { players_current, players_max, map } => {
                proof {
                    reveal_strlit("/");
                    reveal_strlit(" - ");
                    assert("/"@ =~= seq!['/']);
                    assert(" - "@ =~= seq![' ', '-', ' ']);
                }
                let mut text = String::new();
                push_decimal_u64(&mut text, *players_current as u64);
                text.append("/");
                push_decimal_i64(&mut text, *players_max as i64);
                text.append(" - ");
                text.append(map.as_str());
                proof {
                    assert(text@ =~= known_label_text(
                        *players_current as nat,
                        *players_max as int,
                        map@,
                    ));
                }
                text
            },
            Presentation::Unknown => String::from_str("¯\\_(ツ)_/¯ server not found"),
        }
    }
}

/// The label of a status: the number of its players, a slash, the most the
/// server takes, then its map after a dash between two spaces.
pub fn known_label(info: &ServerInfo) -> (text: String)
    ensures
        text@ == known_label_text(info.players@.len(), info.maxplayers as int, info.map@),
{
    Presentation::of_status(info).label()
}

/// The label to publish after a fetch that ended in `outcome`.
pub fn label_of_outcome(outcome: &Result<ServerInfo, FetchError>) -> (text: String)
    ensures
        text@ == label_text(presentation_of_outcome(*outcome)),
{
    Presentation::of_outcome(outcome).label()
}

} // verus!
