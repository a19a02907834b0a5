//! The count of jobs in flight.
use vstd::prelude::*;

verus! {

/// Counts the jobs that are between their start and their exit. It serves
/// observation only: admission is decided by the scheduler.
pub struct ActiveCounter {
    count: usize,
}

impl ActiveCounter {
    /// The number of jobs in flight.
    pub closed spec fn value(&self) -> nat {
        self.count as nat
    }

    /// A counter with no job in flight.
    pub fn new() -> (counter: Self)
        ensures
            counter.value() == 0,
    {
        ActiveCounter { count: 0 }
    }

    /// The number of jobs in flight.
    pub fn get(&self) -> (n: usize)
        ensures
            n == self.value(),
    {
        self.count
    }
}

/// Held by a job from its start to its exit: making it counts the job in,
/// releasing it counts the job out, whatever the job's outcome was.
pub struct DownloadGuard {
    level: usize,
}

impl DownloadGuard {
    /// The number of jobs in flight right after this one entered.
    pub closed spec fn level(&self) -> nat {
        self.level as nat
    }

    /// Counts one job in.
    pub fn new(counter: &mut ActiveCounter) -> (guard: Self)
        requires
            old(counter).value() < usize::MAX,
        ensures
            final(counter).value() == old(counter).value() + 1,
            guard.level() == old(counter).value() + 1,
    {
        counter.count += 1;
        DownloadGuard { level: counter.count }
    }

    /// The number of jobs in flight right after this one entered.
    pub fn entered_at(&self) -> (n: usize)
        ensures
            n == self.level(),
    {
        self.level
    }

    /// Counts the job out again.
    pub fn release(self, counter: &mut ActiveCounter)
        requires
            old(counter).value() > 0,
        ensures
            final(counter).value() == old(counter).value() - 1,
    {
        counter.count -= 1;
    }
}

} // verus!
