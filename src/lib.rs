//! Status tracking for a set of remote game servers: the status model, the
//! per-server probe bookkeeping, the reconciler that applies probe results,
//! the concurrency limiter and the pagination arithmetic of the server list.
use vstd::prelude::*;

pub mod monitor;
pub mod pagination;
pub mod semaphore_manager;
pub mod server;
pub mod server_list;
pub mod status;

verus! {

} // verus!
