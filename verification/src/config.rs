//! The monitor's settings and the address at which the watched server's
//! status is fetched.

use vstd::prelude::*;
use vstd::string::*;
use crate::decimal::{decimal_of_int, push_decimal_i64};

verus! {

/// Seconds that the poll loop sleeps between two cycles.
pub const POLL_INTERVAL_SECONDS: u64 = 60;

/// Largest age, in minutes, at which the liveness probe still answers that
/// the monitor is alive.
pub const STALE_THRESHOLD_MINUTES: i64 = 5;

/// Seconds after which a fetch that has not been answered is given up.
pub const REQUEST_TIMEOUT_SECONDS: u64 = 5;

/// Port on which the liveness probe listens.
pub const PROBE_PORT: u16 = 3030;

/// Settings of the monitor: the chat session's token and the game server to
/// watch.
#[derive(Clone, Debug)]
pub struct Static {
    pub token: String,
    pub game: String,
    pub server_ip: String,
    pub server_port: i32,
}

/// The game that the default settings name.
pub open spec fn fallback_game() -> Seq<char> {
    seq!['r', 'u', 's', 't']
}

impl Default for Static {
    /// The settings that stand in where none are stored: the game is `rust`,
    /// token and host are empty, the port is zero.
    fn default() -> (cfg: Self)
        ensures
            cfg.token@ == Seq::<char>::empty(),
            cfg.game@ == fallback_game(),
            cfg.server_ip@ == Seq::<char>::empty(),
            cfg.server_port == 0,
    {
        proof {
            reveal_strlit("rust");
            assert("rust"@ =~= fallback_game());
        }
        Static {
            token: String::new(),
            game: String::from_str("rust"),
            server_ip: String::new(),
            server_port: 0,
        }
    }
}

/// First part of every status address, up to and including the slash before
/// the game.
pub open spec fn status_base() -> Seq<char> {
    "https://gamedig.gametools.network/game/"@
}

/// The address that answers for `game` on `host`:`port`: the base, then the
/// three parts separated by slashes, the port in decimal.
pub open spec fn status_url_text(game: Seq<char>, host: Seq<char>, port: int) -> Seq<char> {
    status_base() + game + seq!['/'] + host + seq!['/'] + decimal_of_int(port)
}

/// What `Url::parse` makes of a text: the address it read, written out
/// again in the form in which a request carries it, or nothing where it
/// refuses the text.
pub uninterp spec fn parsed_address(text: Seq<char>) -> Option<Seq<char>>;

/// An address that may be absent, as plain values.
pub open spec fn address_view(address: Option<String>) -> Option<Seq<char>> {
    match address {
        Some(a) => Some(a@),
        None => None,
    }
}

/// Calls `reqwest::Url::parse`, the parser of the `url` crate, on `text`, and
/// turns the address it gives into a `String` by `String::from`, which hands
/// out the text that the address holds. The contract claims only that the
/// outcome depends on `text` alone.
#[verifier::external_body]
fn parse_address(text: &str) -> (address: Option<String>)
    ensures
        address_view(address) == parsed_address(text@),
{
    reqwest::Url::parse(text).ok().map(String::from)
}

impl Static {
    /// The settings used when the stored ones cannot be read: the default
    /// ones, with the game `rust`, token and host empty, and the port zero.
    pub fn fallback() -> (cfg: Self)
        ensures
            cfg.token@ == Seq::<char>::empty(),
            cfg.game@ == fallback_game(),
            cfg.server_ip@ == Seq::<char>::empty(),
            cfg.server_port == 0,
    {
        Static::default()
    }

    /// The address of the status of the server that these settings name.
    pub open spec fn status_url_spec(&self) -> Seq<char> {
        status_url_text(self.game@, self.server_ip@, self.server_port as int)
    }

    /// Builds the address at which the status of the watched server is
    /// fetched.
    pub fn status_url(&self) -> (url: String)
        ensures
            url@ == self.status_url_spec(),
    {
        proof {
            reveal_strlit("/");
            assert("/"@ =~= seq!['/']);
        }
        let mut url = String::from_str("https://gamedig.gametools.network/game/");
        url.append(self.game.as_str());
        url.append("/");
        url.append(self.server_ip.as_str());
        url.append("/");
        push_decimal_i64(&mut url, self.server_port as i64);
        url
    }

    /// The address to which the request for the status is sent: what the
    /// parser makes of the templated address, or nothing where it refuses
    /// it.
    pub fn request_url(&self) -> (address: Option<String>)
        ensures
            address_view(address) == parsed_address(self.status_url_spec()),
    {
        let text = self.status_url();
        parse_address(text.as_str())
    }
}

} // verus!
