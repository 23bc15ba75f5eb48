//! Process-wide runtime state: the scheduler configuration and the main
//! application singleton.
//!
//! The background command runtime reads two knobs — the worker thread count
//! and the cap on blocking threads — once, when the scheduler is first used.
//! Each knob can be set at most once before that moment; later writes are
//! ignored. The main toolkit application handle lives in a slot that is
//! filled lazily, on first use, and shared from then on. Both are explicit
//! state handed to whoever builds the runtime, rather than implicit global
//! mutation.

use vstd::prelude::*;

verus! {

/// The default number of worker threads for background commands.
pub const DEFAULT_WORKER_THREADS: u64 = 1;

/// The default maximum number of threads for blocking commands.
pub const DEFAULT_MAX_BLOCKING_THREADS: u64 = 512;

/// The scheduler knobs, with set-once-before-first-use semantics.
pub struct RuntimeConfig {
    worker_threads: Option<u64>,
    max_blocking_threads: Option<u64>,
    sealed: bool,
}

impl RuntimeConfig {
    /// The configured worker thread count, if one was set.
    pub closed spec fn spec_worker_threads(&self) -> Option<u64> {
        self.worker_threads
    }

    /// The configured blocking thread cap, if one was set.
    pub closed spec fn spec_max_blocking_threads(&self) -> Option<u64> {
        self.max_blocking_threads
    }

    /// Whether the scheduler has read the knobs; from then on writes are
    /// ignored.
    pub closed spec fn spec_sealed(&self) -> bool {
        self.sealed
    }

    /// The worker thread count the scheduler uses: the configured value, or
    /// the default.
    pub open spec fn spec_effective_worker_threads(&self) -> u64 {
        match self.spec_worker_threads() {
            Some(n) => n,
            None => DEFAULT_WORKER_THREADS,
        }
    }

    /// The blocking thread cap the scheduler uses: the configured value, or
    /// the default.
    pub open spec fn spec_effective_max_blocking_threads(&self) -> u64 {
        match self.spec_max_blocking_threads() {
            Some(n) => n,
            None => DEFAULT_MAX_BLOCKING_THREADS,
        }
    }

    /// A fresh configuration: nothing set, nothing read yet.
    pub fn new() -> (c: Self)
        ensures
            c.spec_worker_threads() is None,
            c.spec_max_blocking_threads() is None,
            !c.spec_sealed(),
    {
        RuntimeConfig { worker_threads: None, max_blocking_threads: None, sealed: false }
    }

    /// Sets the worker thread count. Succeeds only on the first write, and
    /// only before the scheduler reads the knobs; otherwise the write is
    /// ignored.
    pub fn set_worker_threads(&mut self, n: u64) -> (accepted: bool)
        ensures
            accepted == (old(self).spec_worker_threads() is None && !old(self).spec_sealed()),
            accepted ==> final(self).spec_worker_threads() == Some(n),
            !accepted ==> final(self).spec_worker_threads() == old(self).spec_worker_threads(),
            final(self).spec_max_blocking_threads() == old(self).spec_max_blocking_threads(),
            final(self).spec_sealed() == old(self).spec_sealed(),
    {
        if self.sealed {
            return false;
        }
        match self.worker_threads {
            Some(_) => false,
            None => {
                self.worker_threads = Some(n);
                true
            },
        }
    }

    /// Sets the blocking thread cap. Succeeds only on the first write, and
    /// only before the scheduler reads the knobs; otherwise the write is
    /// ignored.
    pub fn set_max_blocking_threads(&mut self, n: u64) -> (accepted: bool)
        ensures
            accepted == (old(self).spec_max_blocking_threads() is None && !old(
                self,
            ).spec_sealed()),
            accepted ==> final(self).spec_max_blocking_threads() == Some(n),
            !accepted ==> final(self).spec_max_blocking_threads() == old(
                self,
            ).spec_max_blocking_threads(),
            final(self).spec_worker_threads() == old(self).spec_worker_threads(),
            final(self).spec_sealed() == old(self).spec_sealed(),
    {
        if self.sealed {
            return false;
        }
        match self.max_blocking_threads {
            Some(_) => false,
            None => {
                self.max_blocking_threads = Some(n);
                true
            },
        }
    }

    /// The scheduler reads the knobs: returns the effective worker thread
    /// count and blocking thread cap, and seals the configuration, so that
    /// every later write is ignored.
    pub fn seal(&mut self) -> (r: (u64, u64))
        ensures
            r.0 == old(self).spec_effective_worker_threads(),
            r.1 == old(self).spec_effective_max_blocking_threads(),
            final(self).spec_sealed(),
            final(self).spec_worker_threads() == old(self).spec_worker_threads(),
            final(self).spec_max_blocking_threads() == old(self).spec_max_blocking_threads(),
    {
        self.sealed = true;
        let workers = match self.worker_threads {
            Some(n) => n,
            None => DEFAULT_WORKER_THREADS,
        };
        let blocking = match self.max_blocking_threads {
            Some(n) => n,
            None => DEFAULT_MAX_BLOCKING_THREADS,
        };
        (workers, blocking)
    }
}

/// The slot holding the process's main toolkit application handle: empty
/// until the handle is first needed, then filled once and shared. An
/// explicit override may store a custom handle, before or after first use.
/// The handle type itself is whatever the toolkit provides; the slot only
/// models the get-or-init discipline.
pub struct AppSlot<T> {
    slot: Option<T>,
}

impl<T> AppSlot<T> {
    /// The stored handle, if any.
    pub closed spec fn spec_slot(&self) -> Option<T> {
        self.slot
    }

    /// An empty slot: no application created yet.
    pub fn new() -> (s: Self)
        ensures
            s.spec_slot() is None,
    {
        AppSlot { slot: None }
    }

    /// Overrides the stored handle with a custom one.
    pub fn set(&mut self, value: T)
        ensures
            final(self).spec_slot() == Some(value),
    {
        self.slot = Some(value);
    }

    /// Returns the main application handle: the stored one if the slot was
    /// already filled — `fresh` is then ignored — or `fresh`, which is
    /// stored for every later call.
    pub fn get_or_init(&mut self, fresh: T) -> (r: &T)
        ensures
            old(self).spec_slot() matches Some(v) ==> *final(self) == *old(self) && *r == v,
            old(self).spec_slot() is None ==> final(self).spec_slot() == Some(fresh) && *r
                == fresh,
    {
        if self.slot.is_none() {
            self.slot = Some(fresh);
        }
        match &self.slot {
            Some(v) => v,
            None => {
                proof {
                    assert(false);
                }
                unreached()
            },
        }
    }
}

} // verus!
