use std::collections::HashMap;
use vstd::prelude::*;

use crate::status::ServerStatus;

verus! {

broadcast use vstd::std_specs::hash::group_hash_axioms;

/// The status shown for `id`: the last one recorded, or `Unknown`.
pub open spec fn status_or_unknown(m: Map<usize, ServerStatus>, id: usize) -> ServerStatus {
    if m.contains_key(id) {
        m[id]
    } else {
        ServerStatus::Unknown
    }
}

/// The last status recorded for each server id.
pub struct ServerList {
    server_statuses: HashMap<usize, ServerStatus>,
}

impl View for ServerList {
    type V = Map<usize, ServerStatus>;

    closed spec fn view(&self) -> Map<usize, ServerStatus> {
        self.server_statuses@
    }
}

impl ServerList {
    /// A list with no status recorded.
    pub fn new() -> (r: Self)
        ensures
            r@ == Map::<usize, ServerStatus>::empty(),
    {
        Self { server_statuses: HashMap::new() }
    }

    /// Records `status` as the status of `id`.
    pub fn update_status(&mut self, id: usize, status: ServerStatus)
        ensures
            final(self)@ == old(self)@.insert(id, status),
    {
        self.server_statuses.insert(id, status);
    }

    /// The status recorded for `id`, or `Unknown` if none was.
    pub fn status_of(&self, id: usize) -> (r: ServerStatus)
        ensures
            r == status_or_unknown(self@, id),
    {
        match self.server_statuses.get(&id) {
            Some(s) => *s,
            None => ServerStatus::Unknown,
        }
    }
}

} // verus!
