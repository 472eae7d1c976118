//! Priorities, inherited options, and when workers pause.
use crate::job::JobOptions;
use crate::queue::{QueueMetrics, QueueOpts};
use vstd::prelude::*;

verus! {

/// The score of a job with a priority: the priority above the counter's lower
/// 48 bits, which overlap with it from the 32nd bit on.
pub open spec fn priority_score(priority: u64, counter: u64) -> int {
    (priority % 0x1_0000_0000) * 0x1_0000_0000 + counter % 0x1_0000_0000_0000
}

/// The score of a job with a priority. Jobs with a lower score run first.
pub fn calculate_next_priority_score(priority: u64, prio_counter: u64) -> (score: u64)
    requires
        priority_score(priority, prio_counter) <= u64::MAX,
    ensures
        score == priority_score(priority, prio_counter),
{
    proof {
        assert((priority << 32) == (priority % 0x1_0000_0000) * 0x1_0000_0000) by (bit_vector);
        assert((prio_counter & 0xffff_ffff_ffff) == prio_counter % 0x1_0000_0000_0000)
            by (bit_vector);
    }
    (priority << 32) + (prio_counter & 0xffff_ffff_ffff)
}

/// Whether the score of a job with this priority and counter is a `u64`.
pub fn priority_score_fits(priority: u64, prio_counter: u64) -> (fits: bool)
    ensures
        fits == (priority_score(priority, prio_counter) <= u64::MAX),
{
    let high: u64 = (priority % 0x1_0000_0000) * 0x1_0000_0000;
    high.checked_add(prio_counter % 0x1_0000_0000_0000).is_some()
}

/// A job with a lower priority value runs before one with a higher value,
/// whatever the counters, as long as priorities and counters fit in 32 bits.
pub proof fn law_lower_priority_runs_first(p: u64, q: u64, c: u64, d: u64)
    requires
        p < q < 0x1_0000_0000,
        c < 0x1_0000_0000,
    ensures
        priority_score(p, c) < priority_score(q, d),
{
}

/// Of two jobs with the same priority the one with the lower counter runs
/// first, as long as the counters fit in 48 bits.
pub proof fn law_same_priority_in_order(p: u64, c: u64, d: u64)
    requires
        c < d < 0x1_0000_0000_0000,
    ensures
        priority_score(p, c) < priority_score(p, d),
{
}

/// The options of a job after what it leaves open was taken from the queue:
/// attempts that were left at zero, and policies that were left out.
pub open spec fn inherited(queue_opts: QueueOpts, opts: JobOptions) -> JobOptions {
    JobOptions {
        remove_on_complete: if opts.remove_on_complete is None {
            queue_opts.remove_on_complete
        } else {
            opts.remove_on_complete
        },
        remove_on_fail: if opts.remove_on_fail is None {
            queue_opts.remove_on_fail
        } else {
            opts.remove_on_fail
        },
        attempts: if opts.attempts == 0 {
            queue_opts.attempts
        } else {
            opts.attempts
        },
        backoff: if opts.backoff is None {
            queue_opts.default_backoff
        } else {
            opts.backoff
        },
        repeat: if opts.repeat is None {
            queue_opts.repeat
        } else {
            opts.repeat
        },
        ..opts
    }
}

/// Takes what a job leaves open from the queue.
pub fn update_job_opts(queue_opts: &QueueOpts, opts: &mut JobOptions)
    ensures
        *final(opts) == inherited(*queue_opts, *old(opts)),
{
    if opts.remove_on_complete.is_none() {
        opts.remove_on_complete = queue_opts.remove_on_complete;
    }
    if opts.remove_on_fail.is_none() {
        opts.remove_on_fail = queue_opts.remove_on_fail;
    }
    if opts.attempts == 0 {
        opts.attempts = queue_opts.attempts;
    }
    if opts.backoff.is_none() {
        opts.backoff = match &queue_opts.default_backoff {
            Some(backoff) => Some(backoff.clone()),
            None => None,
        };
    }
    if opts.repeat.is_none() {
        opts.repeat = match &queue_opts.repeat {
            Some(repeat) => Some(repeat.clone()),
            None => None,
        };
    }
}

/// Inheriting twice is inheriting once, and what a job says itself stays.
pub proof fn law_inherited_once(queue_opts: QueueOpts, opts: JobOptions)
    ensures
        inherited(queue_opts, inherited(queue_opts, opts)) == inherited(queue_opts, opts),
        opts.attempts != 0 ==> inherited(queue_opts, opts).attempts == opts.attempts,
        opts.backoff is Some ==> inherited(queue_opts, opts).backoff == opts.backoff,
        opts.repeat is Some ==> inherited(queue_opts, opts).repeat == opts.repeat,
        inherited(queue_opts, opts).priority == opts.priority,
        inherited(queue_opts, opts).delay == opts.delay,
        inherited(queue_opts, opts).id == opts.id,
{
}

/// What a job leaves open is the queue's, and what it says itself is its own: each
/// of its policies, its attempts, and nothing else of it.
pub proof fn law_left_open_is_the_queues(queue_opts: QueueOpts, opts: JobOptions)
    ensures
        ({
            let after = inherited(queue_opts, opts);
            &&& opts.backoff is None ==> after.backoff == queue_opts.default_backoff
            &&& opts.backoff is Some ==> after.backoff == opts.backoff
            &&& opts.repeat is None ==> after.repeat == queue_opts.repeat
            &&& opts.repeat is Some ==> after.repeat == opts.repeat
            &&& opts.remove_on_complete is None ==> after.remove_on_complete
                == queue_opts.remove_on_complete
            &&& opts.remove_on_complete is Some ==> after.remove_on_complete
                == opts.remove_on_complete
            &&& opts.remove_on_fail is None ==> after.remove_on_fail == queue_opts.remove_on_fail
            &&& opts.remove_on_fail is Some ==> after.remove_on_fail == opts.remove_on_fail
            &&& opts.attempts == 0 ==> after.attempts == queue_opts.attempts
            &&& opts.attempts != 0 ==> after.attempts == opts.attempts
            &&& after.priority == opts.priority
            &&& after.delay == opts.delay
            &&& after.id == opts.id
        }),
{
}

/// Jobs of two queues that leave the same open differ only where the queues do, and
/// an option that a queue does not give either stays open.
pub proof fn law_queues_decide_what_is_open(a: QueueOpts, b: QueueOpts, opts: JobOptions)
    ensures
        a.default_backoff != b.default_backoff && opts.backoff is None ==> inherited(
            a,
            opts,
        ).backoff != inherited(b, opts).backoff,
        a.repeat != b.repeat && opts.repeat is None ==> inherited(a, opts).repeat != inherited(
            b,
            opts,
        ).repeat,
        a.remove_on_complete != b.remove_on_complete && opts.remove_on_complete is None
            ==> inherited(a, opts).remove_on_complete != inherited(b, opts).remove_on_complete,
        a.remove_on_fail != b.remove_on_fail && opts.remove_on_fail is None ==> inherited(
            a,
            opts,
        ).remove_on_fail != inherited(b, opts).remove_on_fail,
        a.attempts != b.attempts && opts.attempts == 0 ==> inherited(a, opts).attempts
            != inherited(b, opts).attempts,
        opts.backoff is None && a.default_backoff is None ==> inherited(a, opts).backoff is None,
        opts.repeat is None && a.repeat is None ==> inherited(a, opts).repeat is None,
{
}

/// Paused workers resume when there is work. Says whether they have to be
/// woken.
pub fn resume_helper(current_metrics: &QueueMetrics, pause_workers: &mut bool) -> (wake: bool)
    ensures
        wake == (current_metrics.has_work() && *old(pause_workers)),
        *final(pause_workers) == (*old(pause_workers) && !current_metrics.has_work()),
{
    let workers_paused = *pause_workers;
    if current_metrics.queue_has_work() && workers_paused {
        *pause_workers = false;
        return true;
    }
    false
}

/// What becomes of the pause flag of the workers.
pub open spec fn pause_flag(metrics: QueueMetrics, paused: bool, initial: bool) -> bool {
    if initial {
        paused
    } else if metrics.idle() {
        true
    } else {
        paused && !metrics.has_work()
    }
}

/// The workers have to be woken.
pub open spec fn wakes_workers(metrics: QueueMetrics, paused: bool, initial: bool) -> bool {
    !initial && !metrics.idle() && metrics.has_work() && paused
}

/// Pauses the workers of an idle queue and resumes them when there is work;
/// the first call only takes note that it was made. Says whether the workers
/// have to be woken.
pub fn pause_or_resume_workers(
    metrics: &QueueMetrics,
    pause_workers: &mut bool,
    is_initial: &mut bool,
) -> (wake: bool)
    ensures
        *final(is_initial) == false,
        *final(pause_workers) == pause_flag(*metrics, *old(pause_workers), *old(is_initial)),
        wake == wakes_workers(*metrics, *old(pause_workers), *old(is_initial)),
{
    if *is_initial {
        *is_initial = false;
        return false;
    }
    if metrics.is_idle() {
        *pause_workers = true;
        false
    } else {
        resume_helper(metrics, pause_workers)
    }
}

/// Workers are woken exactly when they were paused and are not any more, and
/// work is never left waiting for paused workers.
pub proof fn law_work_is_not_left_to_paused_workers(metrics: QueueMetrics, paused: bool)
    ensures
        wakes_workers(metrics, paused, false) <==> paused && !pause_flag(metrics, paused, false),
        metrics.has_work() ==> !pause_flag(metrics, paused, false),
{
}

/// Any job that waits, is prioritized, delayed or stalled is work: the workers of
/// its queue are not paused over it, and paused ones are woken, except by the first
/// call, which only takes note that it was made. Without such a job no one is woken.
pub proof fn law_each_count_is_work(metrics: QueueMetrics, paused: bool)
    ensures
        metrics.waiting > 0 || metrics.prioritized > 0 || metrics.delayed > 0 || metrics.stalled
            > 0 ==> {
            &&& metrics.has_work()
            &&& !metrics.idle()
            &&& pause_flag(metrics, paused, false) == false
            &&& wakes_workers(metrics, paused, false) == paused
        },
        metrics.waiting == 0 && metrics.prioritized == 0 && metrics.delayed == 0
            && metrics.stalled == 0 ==> {
            &&& !metrics.has_work()
            &&& !wakes_workers(metrics, paused, false)
            &&& paused ==> pause_flag(metrics, paused, false)
        },
        pause_flag(metrics, paused, true) == paused,
        !wakes_workers(metrics, paused, true),
{
}

/// The workers of an idle queue are paused, those of a queue that still processes a
/// job are not paused over it, and a queue that is not idle never pauses a worker
/// that runs.
pub proof fn law_only_an_idle_queue_pauses(metrics: QueueMetrics, paused: bool)
    ensures
        metrics.idle() ==> pause_flag(metrics, paused, false) && !wakes_workers(
            metrics,
            paused,
            false,
        ),
        !metrics.idle() && !paused ==> !pause_flag(metrics, paused, false),
        metrics.active > 0 ==> !metrics.idle(),
{
}

/// The score of a job with a priority is made up of the two: as long as the priority
/// fits in 32 bits and the counter in 48 it is 2^32 times the priority, and the counter
/// more; what is above those bits makes no difference.
pub proof fn law_score_is_priority_and_counter(p: u64, c: u64)
    ensures
        p < 0x1_0000_0000 && c < 0x1_0000_0000_0000 ==> priority_score(p, c) == p * 0x1_0000_0000
            + c,
        priority_score(p, c) == priority_score(
            (p % 0x1_0000_0000) as u64,
            (c % 0x1_0000_0000_0000) as u64,
        ),
        p < 0x1_0000_0000 && c < 0x1_0000_0000 ==> priority_score(p, c) / 0x1_0000_0000 == p
            && priority_score(p, c) % 0x1_0000_0000 == c,
{
}

} // verus!
