//! The settings of the proxy: where it listens, which server it forwards to,
//! and how it describes itself.
use vstd::prelude::*;

verus! {

/// Whether a character is an ASCII decimal digit.
pub open spec fn is_digit(c: char) -> bool {
    '0' <= c <= '9'
}

/// The number that a sequence of decimal digits writes.
pub open spec fn digits_value(s: Seq<char>) -> nat
    decreases s.len(),
{
    if s.len() == 0 {
        0
    } else {
        digits_value(s.drop_last()) * 10 + (s.last() as int - 48) as nat
    }
}

/// What parsing a text as a `u16` gives: an optional `+`, then one or more
/// decimal digits whose value fits in 16 bits; anything else is refused.
pub open spec fn spec_parse_u16(s: Seq<char>) -> Option<u16> {
    let digits = if s.len() > 0 && s[0] == '+' {
        s.drop_first()
    } else {
        s
    };
    if digits.len() > 0 && (forall|i: int| 0 <= i < digits.len() ==> is_digit(#[trigger] digits[i]))
        && digits_value(digits) <= u16::MAX {
        Some(digits_value(digits) as u16)
    } else {
        None
    }
}

/// `str::parse::<u16>`: the number, or `None` (for the `ParseIntError`) when
/// the text is not an optional `+` followed by decimal digits of a value
/// below 65536.
#[verifier::external_body]
fn parse_u16(text: &str) -> (r: Option<u16>)
    ensures
        r == spec_parse_u16(text@),
{
    text.parse::<u16>().ok()
}

/// The settings of the proxy.
#[derive(Debug)]
pub struct ProxyConfig {
    address: &'static str,
    port: u16,
    pub default_server: String,
    pub default_server_port: u16,
    max_players: u32,
    pub description: String,
}

/// Why settings were refused.
#[derive(Debug, PartialEq, Eq, Clone)]
pub enum ConfigError {
    /// The server port is not a `u16` number; the text is the port given.
    InvalidPort(String),
}

/// The server the proxy forwards to when none is set.
pub open spec fn default_server_name() -> Seq<char> {
    "localhost"@
}

/// The description the proxy gives of itself.
pub open spec fn proxy_description() -> Seq<char> {
    "{\"text\": \"Netherconduit Proxy\"}"@
}

impl ProxyConfig {
    /// The settings for the given server and server port, where set: the
    /// proxy listens on port 25565 of every address, forwards to
    /// `localhost` and port 25566 unless told otherwise, admits 20 players,
    /// and describes itself as "Netherconduit Proxy". A port that is not a
    /// `u16` number is refused.
    pub fn from_settings(server: Option<String>, port: Option<String>) -> (r: Result<
        ProxyConfig,
        ConfigError,
    >)
        ensures
            match port {
                Some(text) => match spec_parse_u16(text@) {
                    None => r matches Err(ConfigError::InvalidPort(given)) && given@ == text@,
                    Some(n) => r matches Ok(c) && c.spec_server_port() == n,
                },
                None => r matches Ok(c) && c.spec_server_port() == 25566,
            },
            r matches Ok(c) ==> {
                &&& c.spec_address() == "0.0.0.0"@
                &&& c.spec_port() == 25565
                &&& c.spec_max_players() == 20
                &&& c.spec_server() == match server {
                    Some(name) => name@,
                    None => default_server_name(),
                }
                &&& c.spec_description() == proxy_description()
            },
    {
        let default_server = match server {
            Some(value) => value,
            None => String::from_str("localhost"),
        };
        let default_server_port: u16 = match port {
            Some(text) => match parse_u16(text.as_str()) {
                Some(value) => value,
                None => return Err(ConfigError::InvalidPort(text)),
            },
            None => 25566,
        };
        Ok(
            ProxyConfig {
                address: "0.0.0.0",
                port: 25565,
                default_server,
                default_server_port,
                max_players: 20,
                description: String::from_str("{\"text\": \"Netherconduit Proxy\"}"),
            },
        )
    }

    /// The server the proxy forwards to.
    pub closed spec fn spec_server(&self) -> Seq<char> {
        self.default_server@
    }

    /// The port of the server the proxy forwards to.
    pub closed spec fn spec_server_port(&self) -> u16 {
        self.default_server_port
    }

    /// The description the proxy gives of itself.
    pub closed spec fn spec_description(&self) -> Seq<char> {
        self.description@
    }

    /// The address the proxy listens on.
    pub closed spec fn spec_address(&self) -> Seq<char> {
        self.address@
    }

    /// The port the proxy listens on.
    pub closed spec fn spec_port(&self) -> u16 {
        self.port
    }

    /// The number of players the proxy admits.
    pub closed spec fn spec_max_players(&self) -> u32 {
        self.max_players
    }

    /// The address the proxy listens on.
    pub fn address(&self) -> (r: &'static str)
        ensures
            r@ == self.spec_address(),
    {
        self.address
    }

    /// The port the proxy listens on.
    pub fn port(&self) -> (r: u16)
        ensures
            r == self.spec_port(),
    {
        self.port
    }
}

} // verus!
