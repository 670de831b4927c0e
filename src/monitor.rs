use std::collections::HashMap;
use vstd::prelude::*;

use crate::server::{
    probe_events_spec, terminal_status_spec, ProbeTask, Server, ServerEntry, ServerModel,
};
use crate::server_list::{status_or_unknown, ServerList};
use crate::status::{is_terminal_status, ServerEvent, ServerStatus};

verus! {

broadcast use vstd::std_specs::hash::group_hash_axioms;

/// The registry and the status map as plain values.
pub struct MonitorModel {
    pub servers: Map<usize, ServerModel>,
    pub statuses: Map<usize, ServerStatus>,
    pub next_id: usize,
}

/// Every entry is stored under its own id, and every id that has an entry
/// or a recorded status was handed out before `next_id`.
pub open spec fn model_wf(m: MonitorModel) -> bool {
    &&& forall|id: usize| #[trigger]
        m.servers.contains_key(id) ==> m.servers[id].id == id && id < m.next_id
    &&& forall|id: usize| #[trigger] m.statuses.contains_key(id) ==> id < m.next_id
}

/// The state after adding a server: it takes the next id, has no probe in
/// flight, and the counter moves on.
pub open spec fn add_spec(m: MonitorModel, name: Seq<char>, ip: Seq<char>, port: u16) -> MonitorModel {
    MonitorModel {
        servers: m.servers.insert(
            m.next_id,
            ServerModel { id: m.next_id, name, ip, port, in_flight: false },
        ),
        next_id: (m.next_id + 1) as usize,
        ..m
    }
}

/// The state after removing `id`: absent ids leave it unchanged.
pub open spec fn remove_spec(m: MonitorModel, id: usize) -> MonitorModel {
    MonitorModel { servers: m.servers.remove(id), ..m }
}

/// A probe request for `id` is accepted when the server exists and has no
/// probe in flight.
pub open spec fn probe_accepted(m: MonitorModel, id: usize) -> bool {
    m.servers.contains_key(id) && !m.servers[id].in_flight
}

/// The state after a probe request for `id`: the in-flight flag is set when
/// the request is accepted, and nothing changes otherwise.
pub open spec fn request_spec(m: MonitorModel, id: usize) -> MonitorModel {
    if probe_accepted(m, id) {
        MonitorModel {
            servers: m.servers.insert(id, ServerModel { in_flight: true, ..m.servers[id] }),
            ..m
        }
    } else {
        m
    }
}

/// The state after a probe request for every server: every flag is set.
pub open spec fn request_all_spec(m: MonitorModel) -> MonitorModel {
    MonitorModel {
        servers: m.servers.map_values(|s: ServerModel| ServerModel { in_flight: true, ..s }),
        ..m
    }
}

/// The state after the probe of `id` ends: its in-flight flag is clear; an
/// absent id leaves the state unchanged.
pub open spec fn end_probe_spec(m: MonitorModel, id: usize) -> MonitorModel {
    if m.servers.contains_key(id) {
        MonitorModel {
            servers: m.servers.insert(id, ServerModel { in_flight: false, ..m.servers[id] }),
            ..m
        }
    } else {
        m
    }
}

/// The state after a status event for `id`: ignored for an absent id;
/// otherwise the status is recorded and, when terminal, the in-flight flag
/// is cleared.
pub open spec fn status_spec(m: MonitorModel, id: usize, status: ServerStatus) -> MonitorModel {
    if !m.servers.contains_key(id) {
        m
    } else if is_terminal_status(status) {
        MonitorModel {
            servers: m.servers.insert(id, ServerModel { in_flight: false, ..m.servers[id] }),
            statuses: m.statuses.insert(id, status),
            ..m
        }
    } else {
        MonitorModel { statuses: m.statuses.insert(id, status), ..m }
    }
}

/// The state after the reconciler applies `e`.
pub open spec fn apply_spec(m: MonitorModel, e: ServerEvent) -> MonitorModel {
    match e {
        ServerEvent::PingStatus { id, status } => status_spec(m, id, status),
        ServerEvent::RefreshRequest { id } => request_spec(m, id),
        ServerEvent::RemoveServer { id } => remove_spec(m, id),
    }
}

/// The task handed out for an accepted request: a copy of the server's address.
pub open spec fn task_for(m: MonitorModel, id: usize, t: ProbeTask) -> bool {
    t.id == id && t.ip@ == m.servers[id].ip && t.port == m.servers[id].port
}

/// `e` shows a registered server as it stands in `m`, with its status.
pub open spec fn entry_matches(m: MonitorModel, e: ServerEntry) -> bool {
    &&& m.servers.contains_key(e.id)
    &&& e.name@ == m.servers[e.id].name
    &&& e.ip@ == m.servers[e.id].ip
    &&& e.port == m.servers[e.id].port
    &&& e.status == status_or_unknown(m.statuses, e.id)
}

/// The registry of servers and the reconciler that applies events to it.
/// All mutation happens here, on one owner.
pub struct Monitor {
    servers: HashMap<usize, Server>,
    servers_id_counter: usize,
    server_list: ServerList,
}

impl View for Monitor {
    type V = MonitorModel;

    closed spec fn view(&self) -> MonitorModel {
        MonitorModel {
            servers: self.servers@.map_values(|s: Server| s@),
            statuses: self.server_list@,
            next_id: self.servers_id_counter,
        }
    }
}

impl Monitor {
    /// Whether the registry is well formed.
    pub open spec fn wf(&self) -> bool {
        model_wf(self@)
    }

    /// An empty registry.
    pub fn new() -> (r: Self)
        ensures
            r.wf(),
            r@.servers == Map::<usize, ServerModel>::empty(),
            r@.statuses == Map::<usize, ServerStatus>::empty(),
            r@.next_id == 0,
    {
        let r = Self {
            servers: HashMap::new(),
            servers_id_counter: 0,
            server_list: ServerList::new(),
        };
        assert(r@.servers =~= Map::<usize, ServerModel>::empty());
        r
    }

    /// Whether another id can still be handed out.
    pub fn can_add(&self) -> (r: bool)
        ensures
            r == (self@.next_id < usize::MAX),
    {
        self.servers_id_counter < usize::MAX
    }

    /// Registers a server and returns its new id.
    pub fn add_server(&mut self, name: String, ip: String, port: u16) -> (id: usize)
        requires
            old(self).wf(),
            old(self)@.next_id < usize::MAX,
        ensures
            final(self).wf(),
            id == old(self)@.next_id,
            final(self)@ == add_spec(old(self)@, name@, ip@, port),
            status_or_unknown(final(self)@.statuses, id) == ServerStatus::Unknown,
    {
        let id = self.servers_id_counter;
        let server = Server::new(id, name, ip, port);
        self.servers.insert(id, server);
        self.servers_id_counter = id + 1;
        assert(self@.servers =~= add_spec(old(self)@, name@, ip@, port).servers);
        id
    }

    /// Removes `id`; an absent id is a no-op. A probe in flight for it is not
    /// cancelled: its later events are ignored.
    pub fn remove_server(&mut self, id: usize)
        requires
            old(self).wf(),
        ensures
            final(self).wf(),
            final(self)@ == remove_spec(old(self)@, id),
    {
        self.servers.remove(&id);
        assert(self@.servers =~= old(self)@.servers.remove(id));
        assert forall|j: usize| #[trigger] self@.servers.contains_key(j) implies self@.servers[j].id
            == j && j < self@.next_id by {
            assert(old(self)@.servers.contains_key(j));
        }
        assert(self@.statuses == old(self)@.statuses);
        assert forall|j: usize| #[trigger] self@.statuses.contains_key(j) implies j
            < self@.next_id by {
            assert(old(self)@.statuses.contains_key(j));
        }
    }

    /// Requests a probe of `id`. When the server exists and has no probe in
    /// flight, sets its flag and returns the task to run; otherwise changes
    /// nothing and returns `None`.
    pub fn request_probe(&mut self, id: usize) -> (r: Option<ProbeTask>)
        requires
            old(self).wf(),
        ensures
            final(self).wf(),
            final(self)@ == request_spec(old(self)@, id),
            r.is_some() == probe_accepted(old(self)@, id),
            r matches Some(t) ==> task_for(old(self)@, id, t),
    {
        match self.servers.remove(&id) {
            None => {
                assert(self@.servers =~= old(self)@.servers);
                None
            },
            Some(server) => {
                let mut server = server;
                let accepted = server.try_begin_probe();
                let task = server.probe_task();
                self.servers.insert(id, server);
                if accepted {
                    assert(self@.servers =~= request_spec(old(self)@, id).servers);
                    Some(task)
                } else {
                    assert(self@.servers =~= old(self)@.servers);
                    None
                }
            },
        }
    }

    /// Requests a probe of every registered server, in order of id, and
    /// returns the tasks of the requests that were accepted.
    pub fn request_probe_all(&mut self) -> (r: Vec<ProbeTask>)
        requires
            old(self).wf(),
        ensures
            final(self).wf(),
            final(self)@ == request_all_spec(old(self)@),
            forall|k: int| #![auto] 0 <= k < r@.len() ==> probe_accepted(old(self)@, r@[k].id)
                && task_for(old(self)@, r@[k].id, r@[k]),
            forall|id: usize| #[trigger]
                probe_accepted(old(self)@, id) ==> exists|k: int|
                    0 <= k < r@.len() && r@[k].id == id,
            forall|k: int, l: int| 0 <= k < l < r@.len() ==> r@[k].id < r@[l].id,
    {
        let ghost m0 = self@;
        let mut tasks: Vec<ProbeTask> = Vec::new();
        let n = self.servers_id_counter;
        let mut i: usize = 0;
        while i < n
            invariant
                self.wf(),
                i <= n,
                n == m0.next_id,
                model_wf(m0),
                self@.next_id == m0.next_id,
                self@.statuses == m0.statuses,
                self@.servers.dom() == m0.servers.dom(),
                forall|j: usize| #[trigger]
                    self@.servers.contains_key(j) ==> if j < i {
                        self@.servers[j] == (ServerModel { in_flight: true, ..m0.servers[j] })
                    } else {
                        self@.servers[j] == m0.servers[j]
                    },
                forall|k: int| #![auto] 0 <= k < tasks@.len() ==> tasks@[k].id < i
                    && probe_accepted(m0, tasks@[k].id) && task_for(m0, tasks@[k].id, tasks@[k]),
                forall|j: usize| #[trigger]
                    probe_accepted(m0, j) && j < i ==> exists|k: int|
                        0 <= k < tasks@.len() && tasks@[k].id == j,
                forall|k: int, l: int| 0 <= k < l < tasks@.len() ==> tasks@[k].id < tasks@[l].id,
            decreases n - i,
        {
            let ghost tasks_before = tasks@;
            let r = self.request_probe(i);
            match r {
                Some(t) => {
                    tasks.push(t);
                    assert forall|k: int, l: int| 0 <= k < l < tasks@.len() implies tasks@[k].id
                        < tasks@[l].id by {
                        assert(tasks@[k] == tasks_before[k]);
                        assert(tasks_before[k].id < i);
                        if l < tasks_before.len() {
                            assert(tasks@[l] == tasks_before[l]);
                        }
                    }
                    assert forall|j: usize| #[trigger]
                        probe_accepted(m0, j) && j < i + 1 implies exists|k: int|
                            0 <= k < tasks@.len() && tasks@[k].id == j by {
                        if j < i {
                            let k = choose|k: int| 0 <= k < tasks_before.len() && tasks_before[k].id == j;
                            assert(tasks@[k] == tasks_before[k]);
                        } else {
                            assert(tasks@[tasks_before.len() as int].id == j);
                        }
                    }
                },
                None => {},
            }
            i = i + 1;
        }
        assert(self@.servers =~= request_all_spec(m0).servers);
        tasks
    }

    /// Applies one event: a status is recorded for a present id (and a
    /// terminal one clears its in-flight flag), a refresh request is a probe
    /// request, and a removal removes. Returns the task to run, if any.
    pub fn apply(&mut self, event: ServerEvent) -> (r: Option<ProbeTask>)
        requires
            old(self).wf(),
        ensures
            final(self).wf(),
            final(self)@ == apply_spec(old(self)@, event),
            match event {
                ServerEvent::RefreshRequest { id } => r.is_some() == probe_accepted(old(self)@, id)
                    && (r matches Some(t) ==> task_for(old(self)@, id, t)),
                _ => r.is_none(),
            },
    {
        match event {
            ServerEvent::PingStatus { id, status } => {
                self.update_status(id, status);
                None
            },
            ServerEvent::RefreshRequest { id } => self.request_probe(id),
            ServerEvent::RemoveServer { id } => {
                self.remove_server(id);
                None
            },
        }
    }

    /// Records the status of a probe of `id`; ignored when `id` is no longer
    /// registered. A terminal status clears the in-flight flag.
    pub fn update_status(&mut self, id: usize, status: ServerStatus)
        requires
            old(self).wf(),
        ensures
            final(self).wf(),
            final(self)@ == status_spec(old(self)@, id, status),
    {
        match self.servers.remove(&id) {
            None => {
                assert(self@.servers =~= old(self)@.servers);
            },
            Some(server) => {
                let mut server = server;
                if status.is_terminal() {
                    server.end_probe();
                }
                self.servers.insert(id, server);
                self.server_list.update_status(id, status);
                assert(self@.servers =~= status_spec(old(self)@, id, status).servers);
            },
        }
    }

    /// Clears the in-flight flag of `id`; a no-op when `id` was removed.
    pub fn end_probe(&mut self, id: usize)
        requires
            old(self).wf(),
        ensures
            final(self).wf(),
            final(self)@ == end_probe_spec(old(self)@, id),
    {
        match self.servers.remove(&id) {
            None => {
                assert(self@.servers =~= old(self)@.servers);
            },
            Some(server) => {
                let mut server = server;
                server.end_probe();
                self.servers.insert(id, server);
                assert(self@.servers =~= end_probe_spec(old(self)@, id).servers);
            },
        }
    }

    /// Whether a registered server already has host `ip` and port `port`.
    pub fn has_address(&self, ip: &String, port: u16) -> (r: bool)
        requires
            self.wf(),
        ensures
            r == exists|id: usize| #[trigger]
                self@.servers.contains_key(id) && self@.servers[id].ip == ip@
                    && self@.servers[id].port == port,
    {
        let n = self.servers_id_counter;
        let mut i: usize = 0;
        while i < n
            invariant
                self.wf(),
                i <= n,
                n == self@.next_id,
                forall|id: usize| #[trigger]
                    self@.servers.contains_key(id) && id < i ==> !(self@.servers[id].ip == ip@
                        && self@.servers[id].port == port),
            decreases n - i,
        {
            match self.servers.get(&i) {
                Some(s) => {
                    assert(self.servers@.contains_key(i) && self.servers@[i] == *s);
                    assert(self@.servers[i] == s@);
                    if *s.ip() == *ip && s.port() == port {
                        assert(self@.servers.contains_key(i));
                        return true;
                    }
                },
                None => {},
            }
            i = i + 1;
        }
        false
    }

    /// The status shown for `id`.
    pub fn status_of(&self, id: usize) -> (r: ServerStatus)
        ensures
            r == status_or_unknown(self@.statuses, id),
    {
        self.server_list.status_of(id)
    }

    /// Whether `id` is registered.
    pub fn contains(&self, id: usize) -> (r: bool)
        ensures
            r == self@.servers.contains_key(id),
    {
        self.servers.contains_key(&id)
    }

    /// The registered servers by id.
    pub fn servers(&self) -> (r: &HashMap<usize, Server>)
        ensures
            r@.map_values(|s: Server| s@) == self@.servers,
    {
        &self.servers
    }

    /// A snapshot of the registered servers with their statuses, in order of id.
    pub fn list_servers(&self) -> (r: Vec<ServerEntry>)
        requires
            self.wf(),
        ensures
            forall|k: int| 0 <= k < r@.len() ==> #[trigger] entry_matches(self@, r@[k]),
            forall|k: int, l: int| 0 <= k < l < r@.len() ==> r@[k].id < r@[l].id,
            forall|id: usize| #[trigger]
                self@.servers.contains_key(id) ==> exists|k: int| 0 <= k < r@.len() && r@[k].id == id,
    {
        let mut out: Vec<ServerEntry> = Vec::new();
        let n = self.servers_id_counter;
        let mut i: usize = 0;
        while i < n
            invariant
                self.wf(),
                i <= n,
                n == self@.next_id,
                forall|k: int| 0 <= k < out@.len() ==> entry_matches(self@, #[trigger] out@[k])
                    && out@[k].id < i,
                forall|k: int, l: int| 0 <= k < l < out@.len() ==> out@[k].id < out@[l].id,
                forall|id: usize| #[trigger]
                    self@.servers.contains_key(id) && id < i ==> exists|k: int|
                        0 <= k < out@.len() && out@[k].id == id,
            decreases n - i,
        {
            match self.servers.get(&i) {
                Some(s) => {
                    let ghost before = out@;
                    assert(self.servers@.contains_key(i) && self.servers@[i] == *s);
                    assert(self@.servers[i] == s@);
                    assert(self@.servers.contains_key(i));
                    assert(s@.id == i);
                    let entry = s.entry(self.server_list.status_of(i));
                    out.push(entry);
                    assert(entry_matches(self@, out@[before.len() as int]));
                    assert forall|k: int| 0 <= k < out@.len() implies entry_matches(
                        self@,
                        #[trigger] out@[k],
                    ) && out@[k].id < i + 1 by {
                        if k < before.len() {
                            assert(out@[k] == before[k]);
                            assert(entry_matches(self@, before[k]));
                        }
                    }
                    assert forall|k: int, l: int| 0 <= k < l < out@.len() implies out@[k].id
                        < out@[l].id by {
                        assert(out@[k] == before[k]);
                        assert(entry_matches(self@, before[k]) && before[k].id < i);
                        if l < before.len() {
                            assert(out@[l] == before[l]);
                        }
                    }
                    assert forall|id: usize| #[trigger]
                        self@.servers.contains_key(id) && id < i + 1 implies exists|k: int|
                            0 <= k < out@.len() && out@[k].id == id by {
                        if id < i {
                            let k = choose|k: int| 0 <= k < before.len() && before[k].id == id;
                            assert(out@[k] == before[k]);
                        } else {
                            assert(out@[before.len() as int].id == id);
                        }
                    }
                },
                None => {},
            }
            i = i + 1;
        }
        out
    }
}

} // verus!

verus! {

/// One accepted probe runs its full course: the request sets the flag, the
/// probe emits `Pinging` and then exactly one terminal status for the same
/// id, and applying both leaves that status shown and the flag clear.
pub proof fn lemma_accepted_probe_cycle(m: MonitorModel, id: usize, resolved: bool, connected: bool)
    requires
        model_wf(m),
        probe_accepted(m, id),
    ensures
        request_spec(m, id).servers[id].in_flight,
        probe_events_spec(id, resolved, connected).len() == 2,
        probe_events_spec(id, resolved, connected)[0] == (ServerEvent::PingStatus {
            id,
            status: ServerStatus::Pinging,
        }),
        probe_events_spec(id, resolved, connected)[1] == (ServerEvent::PingStatus {
            id,
            status: terminal_status_spec(resolved, connected),
        }),
        is_terminal_status(terminal_status_spec(resolved, connected)),
        ({
            let after = apply_spec(
                apply_spec(request_spec(m, id), probe_events_spec(id, resolved, connected)[0]),
                probe_events_spec(id, resolved, connected)[1],
            );
            &&& after.servers.contains_key(id)
            &&& !after.servers[id].in_flight
            &&& status_or_unknown(after.statuses, id) == terminal_status_spec(resolved, connected)
        }),
{
}

/// A request for an id whose probe is in flight is ignored: no task is
/// handed out and the state, flag included, is unchanged.
pub proof fn lemma_request_while_in_flight(m: MonitorModel, id: usize)
    requires
        m.servers.contains_key(id),
        m.servers[id].in_flight,
    ensures
        !probe_accepted(m, id),
        request_spec(m, id) == m,
        apply_spec(m, ServerEvent::RefreshRequest { id }) == m,
{
}

/// Removing a server takes it out at once, and any status that arrives for
/// it afterwards changes nothing.
pub proof fn lemma_orphaned_event_ignored(m: MonitorModel, id: usize, status: ServerStatus)
    ensures
        !remove_spec(m, id).servers.contains_key(id),
        apply_spec(remove_spec(m, id), ServerEvent::PingStatus { id, status }) == remove_spec(m, id),
{
}

/// Applying the same status event twice gives the state of applying it once.
pub proof fn lemma_status_event_idempotent(m: MonitorModel, id: usize, status: ServerStatus)
    ensures
        apply_spec(apply_spec(m, ServerEvent::PingStatus { id, status }), ServerEvent::PingStatus {
            id,
            status,
        }) == apply_spec(m, ServerEvent::PingStatus { id, status }),
{
    let once = apply_spec(m, ServerEvent::PingStatus { id, status });
    let twice = apply_spec(once, ServerEvent::PingStatus { id, status });
    if m.servers.contains_key(id) {
        assert(twice.servers =~= once.servers);
        assert(twice.statuses =~= once.statuses);
    }
}

} // verus!
