use vstd::prelude::*;

verus! {

/// Why a probe could not report a server as reachable.
#[derive(Debug, Clone, Copy, PartialEq, Eq, Structural)]
pub enum ServerPingError {
    /// The host could not be parsed or resolved to any address.
    DnsResolveError,
    /// A connection-layer failure other than an unreachable address.
    ConnectionError,
}

/// The status of one server as shown to the user.
#[derive(Debug, Clone, Copy, PartialEq, Eq, Structural)]
pub enum ServerStatus {
    Unknown,
    Online,
    Offline,
    Pinging,
    Error(ServerPingError),
}

/// A terminal status ends the event sequence of a probe: anything but the
/// transitional `Pinging` (and the initial `Unknown`, which no probe emits).
pub open spec fn is_terminal_status(s: ServerStatus) -> bool {
    match s {
        ServerStatus::Online | ServerStatus::Offline | ServerStatus::Error(_) => true,
        _ => false,
    }
}

/// The text shown for a status.
pub open spec fn status_label(s: ServerStatus) -> Seq<char> {
    match s {
        ServerStatus::Unknown => "Unknown"@,
        ServerStatus::Online => "Online"@,
        ServerStatus::Offline => "Offline"@,
        ServerStatus::Pinging => "Pinging"@,
        ServerStatus::Error(ServerPingError::DnsResolveError) => "DNS Resolve Error"@,
        ServerStatus::Error(ServerPingError::ConnectionError) => "Connection Error"@,
    }
}

impl ServerStatus {
    /// The text shown for this status.
    pub fn label(&self) -> (r: String)
        ensures
            r@ == status_label(*self),
    {
        let s: &str = match self {
            ServerStatus::Unknown => "Unknown",
            ServerStatus::Online => "Online",
            ServerStatus::Offline => "Offline",
            ServerStatus::Pinging => "Pinging",
            ServerStatus::Error(ServerPingError::DnsResolveError) => "DNS Resolve Error",
            ServerStatus::Error(ServerPingError::ConnectionError) => "Connection Error",
        };
        proof {
            reveal_strlit("Unknown");
            reveal_strlit("Online");
            reveal_strlit("Offline");
            reveal_strlit("Pinging");
            reveal_strlit("DNS Resolve Error");
            reveal_strlit("Connection Error");
        }
        s.to_string()
    }

    /// Whether this status ends a probe's event sequence.
    pub fn is_terminal(&self) -> (r: bool)
        ensures
            r == is_terminal_status(*self),
    {
        match self {
            ServerStatus::Online | ServerStatus::Offline | ServerStatus::Error(_) => true,
            _ => false,
        }
    }
}

/// A player reported by a server.
#[derive(Debug, Clone, PartialEq, Eq)]
pub struct Player {
    pub name: String,
    pub uuid: String,
}

/// Details a reachable server reports about itself.
#[derive(Debug, Clone, PartialEq, Eq)]
pub struct ServerInfo {
    pub motd: Option<String>,
    pub players: Option<Vec<Player>>,
    pub max_players: Option<u16>,
}

/// The result of one successful probe.
pub struct ServerPingInfo {
    pub id: u32,
    pub status: ServerStatus,
    pub info: Option<ServerInfo>,
}

/// What flows into the reconciler: probe results and user requests.
#[derive(Debug, Clone, Copy, PartialEq, Eq, Structural)]
pub enum ServerEvent {
    PingStatus { id: usize, status: ServerStatus },
    RefreshRequest { id: usize },
    RemoveServer { id: usize },
}

} // verus!
