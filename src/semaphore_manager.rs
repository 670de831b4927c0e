use std::sync::Arc;
use vstd::prelude::*;

use tokio::sync::Semaphore;

verus! {

/// tokio's permit pool, carried through as an opaque value.
#[verifier::external_type_specification]
#[verifier::external_body]
pub struct ExSemaphore(Semaphore);

/// The largest capacity a pool can be created with: tokio's
/// `Semaphore::MAX_PERMITS`, which is `usize::MAX >> 3`.
pub const MAX_PERMITS: usize = usize::MAX >> 3;

/// The number of permits a pool was created with.
pub uninterp spec fn permits_made_with(s: Semaphore) -> usize;

/// Relies on tokio's `Semaphore::new`: it asserts that `permits` is at most
/// `Semaphore::MAX_PERMITS` and creates the pool with `permits` permits.
pub assume_specification[ Semaphore::new ](permits: usize) -> (r: Semaphore)
    requires
        permits <= usize::MAX >> 3,
    ensures
        permits_made_with(r) == permits,
;

/// The concurrency limiter: a pool of permits that bounds how many probes
/// run at once. Resizing installs a new pool; permits already handed out by
/// the old pool stay valid until their holders drop them, so for a while the
/// number of permits held may exceed the new capacity by at most the number
/// that were outstanding.
pub struct SemaphoreManager {
    semaphore: Arc<Semaphore>,
    size: usize,
}

impl SemaphoreManager {
    /// The current pool.
    pub closed spec fn pool(&self) -> Semaphore {
        *self.semaphore
    }

    /// The capacity of the current pool.
    pub open spec fn capacity(&self) -> usize {
        permits_made_with(self.pool())
    }

    /// The recorded size is the capacity of the current pool.
    pub closed spec fn wf(&self) -> bool {
        self.size == permits_made_with(*self.semaphore)
    }

    /// A limiter whose pool holds `initial_size` permits.
    pub fn new(initial_size: usize) -> (r: Self)
        requires
            initial_size <= MAX_PERMITS,
        ensures
            r.wf(),
            r.capacity() == initial_size,
    {
        SemaphoreManager { semaphore: Arc::new(Semaphore::new(initial_size)), size: initial_size }
    }

    /// A shared handle on the current pool, to acquire a permit from.
    pub fn semaphore(&self) -> (r: Arc<Semaphore>)
        ensures
            *r == self.pool(),
    {
        Arc::clone(&self.semaphore)
    }

    /// The capacity of the current pool.
    pub fn size(&self) -> (r: usize)
        requires
            self.wf(),
        ensures
            r == self.capacity(),
    {
        self.size
    }

    /// Installs a new pool of `new_size` permits.
    pub fn update_size(&mut self, new_size: usize)
        requires
            new_size <= MAX_PERMITS,
        ensures
            final(self).wf(),
            final(self).capacity() == new_size,
    {
        self.semaphore = Arc::new(Semaphore::new(new_size));
        self.size = new_size;
    }
}

} // verus!
