//! The states of a connection between a player and the proxy.
use vstd::prelude::*;

verus! {

/// The protocol state that a connection is in.
#[derive(Debug, Clone, Copy, PartialEq, Eq, Hash, Structural)]
pub enum ConnectionState {
    Status,
    Login,
    Configuration,
    Play,
    LoginDisconnect,
    Closed,
}

/// The name of a state as it is shown to a person.
pub open spec fn state_name(state: ConnectionState) -> Seq<char> {
    match state {
        ConnectionState::Status => "Status"@,
        ConnectionState::Login => "Login"@,
        ConnectionState::Configuration => "Configuration"@,
        ConnectionState::Play => "Play"@,
        ConnectionState::LoginDisconnect => "LoginDisconnect"@,
        ConnectionState::Closed => "Closed"@,
    }
}

impl ConnectionState {
    /// The name of the state as it is shown to a person.
    pub fn to_string(&self) -> (s: String)
        ensures
            s@ == state_name(*self),
    {
        match self {
            ConnectionState::Status => String::from_str("Status"),
            ConnectionState::Login => String::from_str("Login"),
            ConnectionState::Configuration => String::from_str("Configuration"),
            ConnectionState::Play => String::from_str("Play"),
            ConnectionState::LoginDisconnect => String::from_str("LoginDisconnect"),
            ConnectionState::Closed => String::from_str("Closed"),
        }
    }
}

} // verus!
