//! Worker configuration.
use crate::outside::cpus::logical_cpus;
use vstd::prelude::*;

verus! {

/// Smallest delay that is accepted, in milliseconds.
pub const MIN_DELAY_MS_LIMIT: u64 = 50;

/// Configuration of a worker. Durations are in milliseconds.
#[derive(Debug, Clone, Copy, PartialEq, Eq, Structural)]
pub struct WorkerOpts {
    /// Interval between checks for stalled jobs.
    pub stalled_interval: u64,
    /// How long a lock is held before the job counts as stalled.
    pub lock_duration: u64,
    /// How long before its expiry a lock is renewed.
    pub lock_renew_time: u64,
    /// How often a job may stall before it fails for good.
    pub max_stalled_count: u64,
    /// How many jobs are processed at a time.
    pub concurrency: usize,
    /// Whether the worker starts when it is made.
    pub autorun: bool,
    /// How often metrics are published.
    pub metrics_update_interval: u64,
}

impl WorkerOpts {
    /// The defaults, with this concurrency.
    pub open spec fn standard(concurrency: usize) -> WorkerOpts {
        WorkerOpts {
            concurrency,
            stalled_interval: 30000,
            lock_duration: 30000,
            lock_renew_time: 15000,
            max_stalled_count: 1,
            metrics_update_interval: 100,
            autorun: false,
        }
    }

    /// The defaults, with this concurrency.
    pub fn with_concurrency(concurrency: usize) -> (opts: Self)
        ensures
            opts == Self::standard(concurrency),
    {
        WorkerOpts {
            concurrency,
            stalled_interval: 30000,
            lock_duration: 30000,
            lock_renew_time: 15000,
            max_stalled_count: 1,
            metrics_update_interval: 100,
            autorun: false,
        }
    }

    /// The time after which held locks are renewed: the renewal time before
    /// they expire.
    pub open spec fn renew_interval(self) -> u64 {
        if self.lock_renew_time <= self.lock_duration {
            (self.lock_duration - self.lock_renew_time) as u64
        } else {
            0
        }
    }

    /// The time after which held locks are renewed.
    pub fn lock_renew_interval(&self) -> (millis: u64)
        ensures
            millis == self.renew_interval(),
    {
        self.lock_duration.saturating_sub(self.lock_renew_time)
    }
}

/// A lock is renewed the renewal time before it expires, and at once where the
/// renewal time is longer than the lock is held: never after the lock has expired, and
/// before it does where there is a renewal time.
pub proof fn law_locks_are_renewed_in_time(opts: WorkerOpts)
    ensures
        opts.renew_interval() <= opts.lock_duration,
        opts.lock_renew_time <= opts.lock_duration ==> opts.renew_interval() + opts.lock_renew_time
            == opts.lock_duration,
        opts.lock_renew_time > opts.lock_duration ==> opts.renew_interval() == 0,
        opts.lock_renew_time > 0 && opts.lock_duration > 0 ==> opts.renew_interval()
            < opts.lock_duration,
{
}

/// By default a worker has this concurrency, renews its locks before they expire,
/// looks for stalled jobs no more often than locks expire, fails no job that stalled
/// once, and waits to be started.
pub proof fn law_defaults_keep_locks(concurrency: usize)
    ensures
        ({
            let opts = WorkerOpts::standard(concurrency);
            &&& opts.concurrency == concurrency
            &&& !opts.autorun
            &&& 0 < opts.renew_interval() < opts.lock_duration
            &&& opts.stalled_interval >= opts.lock_duration
            &&& opts.max_stalled_count >= 1
            &&& opts.metrics_update_interval > 0
        }),
{
}

impl Default for WorkerOpts {
    /// As many jobs at a time as the machine has logical CPUs.
    fn default() -> (opts: Self)
        ensures
            opts == WorkerOpts::standard(opts.concurrency),
            opts.concurrency >= 1,
    {
        WorkerOpts::with_concurrency(logical_cpus())
    }
}

} // verus!
