//! The status that the proxy reports to a client that asks for it.
use crate::server::protocol_version::ConnectionProtocolVersion;
use vstd::prelude::*;

verus! {

/// What the proxy reports of itself: its protocol version, the players entry
/// and the description, each of the last two a JSON text.
#[derive(Debug, PartialEq, Eq, Clone)]
pub struct ServerStatus {
    version: ConnectionProtocolVersion,
    players: Option<String>,
    description: String,
    favicon: Option<String>,
}

/// A `ServerStatus` with its texts as sequences of characters.
pub struct ServerStatusView {
    pub version: ConnectionProtocolVersion,
    pub players: Option<Seq<char>>,
    pub description: Seq<char>,
    pub favicon: Option<Seq<char>>,
}

/// An optional text as an optional sequence of characters.
pub open spec fn optional_text(text: Option<String>) -> Option<Seq<char>> {
    match text {
        Some(t) => Some(t@),
        None => None,
    }
}

impl View for ServerStatus {
    type V = ServerStatusView;

    closed spec fn view(&self) -> ServerStatusView {
        ServerStatusView {
            version: self.version,
            players: optional_text(self.players),
            description: self.description@,
            favicon: optional_text(self.favicon),
        }
    }
}

/// The status as a JSON object: the version's JSON, then the players entry
/// when there is one, then the description, each written as given.
pub open spec fn status_json(status: ServerStatusView, version_json: Seq<char>) -> Seq<char> {
    match status.players {
        Some(players) => "{\"version\":"@ + version_json + ",\"players\":"@ + players
            + ",\"description\":"@ + status.description + "}"@,
        None => "{\"version\":"@ + version_json + ",\"description\":"@ + status.description
            + "}"@,
    }
}

impl ServerStatus {
    /// A status with the given version, players entry and description, and
    /// no favicon.
    pub fn new(
        protocol_version: ConnectionProtocolVersion,
        players: Option<&str>,
        description: &str,
    ) -> (r: Self)
        ensures
            r@.version == protocol_version,
            r@.players == match players {
                Some(p) => Some(p@),
                None => None::<Seq<char>>,
            },
            r@.description == description@,
            r@.favicon is None,
    {
        let players = match players {
            Some(string_slice) => Some(String::from_str(string_slice)),
            None => None,
        };
        Self {
            version: protocol_version,
            players,
            description: String::from_str(description),
            favicon: None,
        }
    }

    /// The protocol version that the status reports.
    pub fn version(&self) -> (r: ConnectionProtocolVersion)
        ensures
            r == self@.version,
    {
        self.version
    }

    /// The status as a JSON object, given the JSON of its version.
    pub fn to_json_with_version(&self, version_json: &str) -> (s: String)
        ensures
            s@ == status_json(self@, version_json@),
    {
        let text = String::from_str("{\"version\":").concat(version_json);
        match &self.players {
            Some(players_string) => text.concat(",\"players\":").concat(
                players_string.as_str(),
            ).concat(",\"description\":").concat(self.description.as_str()).concat("}"),
            None => text.concat(",\"description\":").concat(self.description.as_str()).concat(
                "}",
            ),
        }
    }
}

} // verus!
