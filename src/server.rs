use vstd::prelude::*;

use crate::status::{ServerEvent, ServerInfo, ServerPingError, ServerPingInfo, ServerStatus};

verus! {

/// What the library knows of a registered server, as plain values.
pub struct ServerModel {
    pub id: usize,
    pub name: Seq<char>,
    pub ip: Seq<char>,
    pub port: u16,
    /// Set while a probe for this server is in flight.
    pub in_flight: bool,
}

/// One row of the server list: a server and its current status.
pub struct ServerEntry {
    pub id: usize,
    pub name: String,
    pub ip: String,
    pub port: u16,
    pub status: ServerStatus,
}

/// A registered server: its identity and its in-flight flag.
#[derive(Debug, Clone, PartialEq, Eq)]
pub struct Server {
    is_pinging: bool,
    pub id: usize,
    pub name: String,
    pub ip: String,
    pub port: u16,
}

impl View for Server {
    type V = ServerModel;

    closed spec fn view(&self) -> ServerModel {
        ServerModel {
            id: self.id,
            name: self.name@,
            ip: self.ip@,
            port: self.port,
            in_flight: self.is_pinging,
        }
    }
}

impl Server {
    /// A new server, with no probe in flight.
    pub fn new(id: usize, name: String, ip: String, port: u16) -> (r: Self)
        ensures
            r@ == (ServerModel { id, name: name@, ip: ip@, port, in_flight: false }),
    {
        Self { is_pinging: false, id, name, ip, port }
    }

    /// This server's identifier.
    pub fn id(&self) -> (r: usize)
        ensures
            r == self@.id,
    {
        self.id
    }

    /// This server's display name.
    pub fn name(&self) -> (r: &String)
        ensures
            r@ == self@.name,
    {
        &self.name
    }

    /// This server's host: a name or a literal address.
    pub fn ip(&self) -> (r: &String)
        ensures
            r@ == self@.ip,
    {
        &self.ip
    }

    /// This server's port.
    pub fn port(&self) -> (r: u16)
        ensures
            r == self@.port,
    {
        self.port
    }

    /// Whether a probe for this server is in flight.
    pub fn is_pinging(&self) -> (r: bool)
        ensures
            r == self@.in_flight,
    {
        self.is_pinging
    }

    /// Claims the in-flight flag: succeeds, and sets it, only when it was clear.
    pub fn try_begin_probe(&mut self) -> (r: bool)
        ensures
            r == !old(self)@.in_flight,
            final(self)@ == (ServerModel { in_flight: true, ..old(self)@ }),
    {
        if self.is_pinging {
            false
        } else {
            self.is_pinging = true;
            true
        }
    }

    /// Clears the in-flight flag.
    pub fn end_probe(&mut self)
        ensures
            final(self)@ == (ServerModel { in_flight: false, ..old(self)@ }),
    {
        self.is_pinging = false;
    }

    /// A row of the server list: this server with `status`.
    pub fn entry(&self, status: ServerStatus) -> (r: ServerEntry)
        ensures
            r.id == self@.id,
            r.name@ == self@.name,
            r.ip@ == self@.ip,
            r.port == self@.port,
            r.status == status,
    {
        ServerEntry {
            id: self.id,
            name: self.name.clone(),
            ip: self.ip.clone(),
            port: self.port,
            status,
        }
    }

    /// The copy of this server's address that a probe works on.
    pub fn probe_task(&self) -> (r: ProbeTask)
        ensures
            r.id == self@.id,
            r.ip@ == self@.ip,
            r.port == self@.port,
    {
        ProbeTask { id: self.id, ip: self.ip.clone(), port: self.port }
    }
}

/// The status a probe ends with: an address that could not be resolved is an
/// error; a resolved address is online when a connection was made within the
/// timeout and offline otherwise.
pub open spec fn terminal_status_spec(resolved: bool, connected: bool) -> ServerStatus {
    if !resolved {
        ServerStatus::Error(ServerPingError::DnsResolveError)
    } else if connected {
        ServerStatus::Online
    } else {
        ServerStatus::Offline
    }
}

/// The outcome of one probe of server `id`, given whether its address was
/// resolved and whether a connection to it was made.
pub fn ping_result(id: usize, resolved: bool, connected: bool) -> (r: Result<
    ServerPingInfo,
    ServerPingError,
>)
    ensures
        !resolved ==> r == Err::<ServerPingInfo, ServerPingError>(ServerPingError::DnsResolveError),
        resolved ==> (r matches Ok(p) && p.id == id as u32 && p.status == terminal_status_spec(
            resolved,
            connected,
        ) && p.info.is_none()),
{
    if !resolved {
        return Err(ServerPingError::DnsResolveError);
    }
    let status = if connected {
        ServerStatus::Online
    } else {
        ServerStatus::Offline
    };
    Ok(ServerPingInfo { id: id as u32, status, info: None })
}

/// The status reported for the outcome of a probe.
pub open spec fn status_of_result_spec(r: Result<ServerPingInfo, ServerPingError>) -> ServerStatus {
    match r {
        Ok(p) => p.status,
        Err(e) => ServerStatus::Error(e),
    }
}

/// The status reported for the outcome of a probe.
pub fn status_of_result(r: &Result<ServerPingInfo, ServerPingError>) -> (s: ServerStatus)
    ensures
        s == status_of_result_spec(*r),
{
    match r {
        Ok(p) => p.status,
        Err(e) => ServerStatus::Error(*e),
    }
}

/// The two events that one accepted probe of server `id` emits, in order.
pub open spec fn probe_events_spec(id: usize, resolved: bool, connected: bool) -> Seq<ServerEvent> {
    seq![
        ServerEvent::PingStatus { id, status: ServerStatus::Pinging },
        ServerEvent::PingStatus { id, status: terminal_status_spec(resolved, connected) },
    ]
}

/// A probe to run: a copy of the fields needed to connect, never a reference
/// into the registry.
#[derive(Debug, Clone, PartialEq, Eq)]
pub struct ProbeTask {
    pub id: usize,
    pub ip: String,
    pub port: u16,
}

impl ProbeTask {
    /// The transitional event emitted once the probe holds a permit.
    pub fn started_event(&self) -> (e: ServerEvent)
        ensures
            e == probe_events_spec(self.id, true, true)[0],
    {
        ServerEvent::PingStatus { id: self.id, status: ServerStatus::Pinging }
    }

    /// The terminal event emitted at the end of the probe.
    pub fn finished_event(&self, resolved: bool, connected: bool) -> (e: ServerEvent)
        ensures
            e == probe_events_spec(self.id, resolved, connected)[1],
    {
        let r = ping_result(self.id, resolved, connected);
        let status = status_of_result(&r);
        ServerEvent::PingStatus { id: self.id, status }
    }
}

} // verus!
