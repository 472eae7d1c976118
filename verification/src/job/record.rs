//! The job record.
use crate::job::options::{clone_texts, FailedDetails, JobMetrics, JobOptions, JobToken, Trace};
use crate::job::state::JobState;
use crate::time::Dt;
use crate::utils::text;
use vstd::prelude::*;

verus! {

/// A unit of work: input `D`, result `R`, progress `P`.
#[derive(Debug)]
pub struct Job<D, R, P> {
    /// Id that the store assigned.
    pub id: Option<u64>,
    /// When the job was created.
    pub ts: Dt,
    /// Label of the job.
    pub name: String,
    /// Lifecycle state.
    pub state: JobState,
    /// Progress reported last.
    pub progress: Option<P>,
    /// How many times the processor was invoked.
    pub attempts_made: u64,
    /// Options the job was enqueued with.
    pub opts: JobOptions,
    /// Configured delay in milliseconds.
    pub delay: u64,
    /// Input of the processor.
    pub data: Option<D>,
    /// Value the processor returned.
    pub returned_value: Option<R>,
    /// One trace for each failed attempt.
    pub stack_trace: Vec<Trace>,
    /// Details of the final failure.
    pub failed_reason: Option<FailedDetails>,
    /// When a worker began to process the job.
    pub processed_on: Option<Dt>,
    /// When the job reached a terminal state.
    pub finished_on: Option<Dt>,
    /// Name of the queue.
    pub queue_name: Option<String>,
    /// Token of the worker that holds the lock.
    pub token: Option<JobToken>,
    /// How many times the job stalled.
    pub stalled_counter: u64,
    /// Log lines.
    pub logs: Vec<String>,
    /// Scheduling priority.
    pub priority: u64,
}

/// `copy` is a clone of `original`, where there is one.
pub open spec fn option_cloned<T: Clone>(original: Option<T>, copy: Option<T>) -> bool {
    match (original, copy) {
        (Some(original), Some(copy)) => cloned(original, copy),
        (None, None) => true,
        _ => false,
    }
}

/// Two lists of traces say the same.
pub open spec fn same_traces(a: Seq<Trace>, b: Seq<Trace>) -> bool {
    a.len() == b.len() && forall|i: int| 0 <= i < a.len() ==> (#[trigger] a[i]).same(b[i])
}

/// A clone of an optional value.
pub fn clone_option<T: Clone>(value: &Option<T>) -> (copy: Option<T>)
    ensures
        option_cloned(*value, copy),
{
    match value {
        Some(value) => Some(value.clone()),
        None => None,
    }
}

/// A copy of a list of traces.
fn clone_traces(traces: &Vec<Trace>) -> (res: Vec<Trace>)
    ensures
        same_traces(res@, traces@),
{
    let mut res: Vec<Trace> = Vec::new();
    let mut i: usize = 0;
    while i < traces.len()
        invariant
            i <= traces.len(),
            same_traces(res@, traces@.take(i as int)),
        decreases traces.len() - i,
    {
        let ghost before = res@;
        res.push(traces[i].clone());
        i += 1;
        assert forall|j: int| 0 <= j < res@.len() implies (#[trigger] res@[j]).same(
            traces@.take(i as int)[j],
        ) by {
            if j < before.len() {
                assert(before[j].same(traces@.take(i as int - 1)[j]));
            }
        }
    }
    assert(traces@.take(traces@.len() as int) =~= traces@);
    res
}

impl<D, R, P> Job<D, R, P> {
    /// The job is a copy of `other`: its own values are clones, everything
    /// else is the same.
    pub open spec fn copy_of(self, other: Self) -> bool where D: Clone, R: Clone, P: Clone {
        &&& self == Job {
            progress: self.progress,
            data: self.data,
            returned_value: self.returned_value,
            stack_trace: self.stack_trace,
            logs: self.logs,
            ..other
        }
        &&& option_cloned(other.progress, self.progress)
        &&& option_cloned(other.data, self.data)
        &&& option_cloned(other.returned_value, self.returned_value)
        &&& same_traces(self.stack_trace@, other.stack_trace@)
        &&& self.logs@ == other.logs@
    }

    /// Puts the job on the heap.
    pub fn boxed(self) -> (job: Box<Self>)
        ensures
            *job == self,
    {
        Box::new(self)
    }

    /// The job is new: it was created at `ts`, has nothing but a name, data, an
    /// id and a queue, and is ready to be picked up.
    pub open spec fn is_new(
        self,
        ts: Dt,
        name: Seq<char>,
        data: Option<D>,
        id: Option<u64>,
        queue_name: Option<Seq<char>>,
    ) -> bool {
        &&& self.id == id
        &&& self.ts == ts
        &&& self.name@ == name
        &&& self.state == JobState::Wait
        &&& self.progress is None
        &&& self.attempts_made == 0
        &&& self.opts == JobOptions::unset()
        &&& self.delay == 0
        &&& self.data == data
        &&& self.returned_value is None
        &&& self.stack_trace@ == Seq::<Trace>::empty()
        &&& self.failed_reason is None
        &&& self.processed_on is None
        &&& self.finished_on is None
        &&& match self.queue_name {
            Some(own) => queue_name == Some(own@),
            None => queue_name is None,
        }
        &&& self.token is None
        &&& self.stalled_counter == 0
        &&& self.logs@ == Seq::<String>::empty()
        &&& self.priority == 0
    }

    /// A new job created at `ts`.
    pub fn new_at(
        name: &str,
        data: Option<D>,
        id: Option<u64>,
        queue_name: Option<&str>,
        ts: Dt,
    ) -> (job: Self)
        ensures
            job.is_new(
                ts,
                name@,
                data,
                id,
                text::chars_in(queue_name),
            ),
    {
        let queue_name = match queue_name {
            Some(queue_name) => Some(String::from_str(queue_name)),
            None => None,
        };
        Job {
            opts: JobOptions::default(),
            queue_name,
            name: String::from_str(name),
            id,
            ts,
            data,
            returned_value: None,
            progress: None,
            processed_on: None,
            finished_on: None,
            state: JobState::default(),
            delay: 0,
            attempts_made: 0,
            stack_trace: Vec::new(),
            failed_reason: None,
            token: None,
            stalled_counter: 0,
            logs: Vec::new(),
            priority: 0,
        }
    }

    /// A new job created now.
    pub fn new(name: &str, data: Option<D>, id: Option<u64>, queue_name: Option<&str>) -> (job:
        Self)
        ensures
            job.is_new(
                job.ts,
                name@,
                data,
                id,
                text::chars_in(queue_name),
            ),
    {
        let ts = Dt::now();
        Self::new_at(name, data, id, queue_name, ts)
    }

    /// The job has been processed: a worker began, or it reached a terminal
    /// state.
    pub open spec fn was_processed(self) -> bool {
        self.processed_on is Some || self.finished_on is Some
    }

    /// The instant, or the Unix epoch where there is none.
    pub open spec fn instant(dt: Option<Dt>) -> int {
        match dt {
            Some(dt) => dt@,
            None => 0,
        }
    }

    /// `metrics` are the job's statistics: how long it ran, how long it waited,
    /// its attempts, its delay and its id.
    pub open spec fn metrics_are(self, metrics: JobMetrics) -> bool {
        let began = Self::instant(self.processed_on);
        let ended = Self::instant(self.finished_on);
        &&& metrics.ran_for.wf()
        &&& metrics.delayed_for.wf()
        &&& metrics.ran_for@ == if ended < began {
            0
        } else {
            ended - began
        }
        &&& metrics.delayed_for@ == if began < self.ts@ {
            0
        } else {
            began - self.ts@
        }
        &&& metrics.attempt == self.attempts_made
        &&& metrics.delay == ((self.opts.delay.diff_millis(self.ts@)->0) as i64) as u64
        &&& metrics.id == match self.id {
            Some(id) => id,
            None => 0,
        }
    }

    /// Timing and attempt statistics, or `None` where the job has not been
    /// processed. A missing instant counts as the Unix epoch, and a span that
    /// would be negative as none.
    pub fn get_metrics(&self) -> (metrics: Option<JobMetrics>)
        requires
            self.opts.delay.diff_millis(self.ts@) is Some,
        ensures
            metrics is Some <==> self.was_processed(),
            metrics matches Some(metrics) ==> self.metrics_are(metrics),
    {
        if self.processed_on.is_none() && self.finished_on.is_none() {
            return None;
        }
        let delay: u64 = self.opts.delay.as_diff_ms(&self.ts) as u64;
        let processed_on = match self.processed_on {
            Some(dt) => dt,
            None => Dt::default(),
        };
        let finished_on = match self.finished_on {
            Some(dt) => dt,
            None => Dt::default(),
        };
        let id: u64 = match self.id {
            Some(id) => id,
            None => 0,
        };
        Some(
            JobMetrics {
                ran_for: finished_on.span_since(&processed_on),
                delayed_for: processed_on.span_since(&self.ts),
                attempt: self.attempts_made,
                delay,
                id,
            },
        )
    }

    /// Timing and attempt statistics as `get_metrics` gives them, or `None`
    /// where the job has not been processed or its schedule has no further
    /// occurrence.
    pub fn checked_metrics(&self) -> (metrics: Option<JobMetrics>)
        ensures
            metrics is Some <==> self.was_processed() && self.opts.delay.diff_millis(
                self.ts@,
            ) is Some,
            metrics matches Some(metrics) ==> self.metrics_are(metrics),
    {
        match self.opts.delay.checked_diff_ms(&self.ts) {
            Some(_) => self.get_metrics(),
            None => None,
        }
    }

    /// Takes over options: priority, delay, and the options themselves.
    pub fn add_opts(&mut self, opts: JobOptions)
        requires
            opts.delay.diff_millis(old(self).ts@) is Some,
        ensures
            *final(self) == (Job {
                priority: opts.priority,
                delay: ((opts.delay.diff_millis(old(self).ts@)->0) as i64) as u64,
                opts,
                ..*old(self)
            }),
    {
        self.priority = opts.priority;
        self.delay = opts.delay.as_diff_ms(&self.ts) as u64;
        self.opts = opts;
    }
}

/// A new job has nothing behind it: it waits, was not tried, has no result, no failure,
/// no lock, and the options that are left open.
pub proof fn law_new_job_has_nothing_behind_it<D, R, P>(
    job: Job<D, R, P>,
    ts: Dt,
    name: Seq<char>,
    data: Option<D>,
    id: Option<u64>,
    queue_name: Option<Seq<char>>,
)
    requires
        job.is_new(ts, name, data, id, queue_name),
    ensures
        job.id == id && job.ts == ts && job.name@ == name && job.data == data,
        job.state == JobState::Wait && job.attempts_made == 0 && job.stalled_counter == 0,
        !job.was_processed() && job.returned_value is None && job.failed_reason is None,
        job.token is None && job.progress is None && job.delay == 0 && job.priority == 0,
        job.stack_trace@.len() == 0 && job.logs@.len() == 0,
        job.opts.attempts == 0 && job.opts.backoff is None && job.opts.repeat is None,
        job.opts.remove_on_complete is None && job.opts.remove_on_fail is None,
        job.opts.id is None && job.opts.priority == 0,
        job.opts.delay == crate::job::JobDelay::TimeMilis(0),
        queue_name matches Some(own) ==> (job.queue_name matches Some(queue) && queue@ == own),
        queue_name is None ==> job.queue_name is None,
{
}

/// A copy of a job says what the job says: everything but the values of its own kind is
/// the same, and those are clones where there are any.
pub proof fn law_copy_says_the_same<D: Clone, R: Clone, P: Clone>(
    job: Job<D, R, P>,
    copy: Job<D, R, P>,
)
    requires
        copy.copy_of(job),
    ensures
        copy.id == job.id && copy.ts == job.ts && copy.name == job.name && copy.state == job.state,
        copy.attempts_made == job.attempts_made && copy.opts == job.opts && copy.delay == job.delay,
        copy.failed_reason == job.failed_reason && copy.processed_on == job.processed_on,
        copy.finished_on == job.finished_on && copy.queue_name == job.queue_name,
        copy.token == job.token && copy.stalled_counter == job.stalled_counter,
        copy.priority == job.priority && copy.logs@ == job.logs@,
        copy.stack_trace@.len() == job.stack_trace@.len(),
        forall|i: int|
            0 <= i < job.stack_trace@.len() ==> (#[trigger] copy.stack_trace@[i]).run
                == job.stack_trace@[i].run && copy.stack_trace@[i].reason
                == job.stack_trace@[i].reason,
        copy.data is Some <==> job.data is Some,
        copy.returned_value is Some <==> job.returned_value is Some,
        copy.progress is Some <==> job.progress is Some,
        job.data matches Some(data) ==> cloned(data, copy.data->0),
{
    assert forall|i: int| 0 <= i < job.stack_trace@.len() implies (
    #[trigger] copy.stack_trace@[i]).run == job.stack_trace@[i].run && copy.stack_trace@[i].reason
        == job.stack_trace@[i].reason by {
        assert(copy.stack_trace@[i].same(job.stack_trace@[i]));
    }
}

/// The statistics of a job that was processed in order: the time that it waited and the
/// time that it ran make up the time from its creation to its end; its attempts, its id
/// and its delay are its own.
pub proof fn law_statistics_make_up_the_whole<D, R, P>(job: Job<D, R, P>, metrics: JobMetrics)
    requires
        job.metrics_are(metrics),
    ensures
        match (job.processed_on, job.finished_on) {
            (Some(began), Some(ended)) => job.ts@ <= began@ <= ended@ ==> {
                &&& metrics.delayed_for@ == began@ - job.ts@
                &&& metrics.ran_for@ == ended@ - began@
                &&& metrics.delayed_for@ + metrics.ran_for@ == ended@ - job.ts@
            },
            (Some(began), None) => began@ >= 0 ==> metrics.ran_for@ == 0,
            _ => true,
        },
        metrics.attempt == job.attempts_made,
        job.id matches Some(id) ==> metrics.id == id,
        job.id is None ==> metrics.id == 0,
        job.opts.delay matches crate::job::JobDelay::TimeMilis(ms) ==> ms >= 0 ==> metrics.delay
            == ms,
        job.was_processed() <==> job.processed_on is Some || job.finished_on is Some,
{
}

impl<D: Clone, R: Clone, P: Clone> Clone for Job<D, R, P> {
    fn clone(&self) -> (res: Self)
        ensures
            res.copy_of(*self),
    {
        let failed_reason = match &self.failed_reason {
            Some(details) => Some(details.clone()),
            None => None,
        };
        let queue_name = match &self.queue_name {
            Some(queue_name) => Some(queue_name.clone()),
            None => None,
        };
        Job {
            opts: self.opts.clone(),
            queue_name,
            name: self.name.clone(),
            id: self.id,
            ts: self.ts,
            data: clone_option(&self.data),
            returned_value: clone_option(&self.returned_value),
            progress: clone_option(&self.progress),
            processed_on: self.processed_on,
            finished_on: self.finished_on,
            state: self.state,
            delay: self.delay,
            attempts_made: self.attempts_made,
            stack_trace: clone_traces(&self.stack_trace),
            failed_reason,
            token: self.token,
            stalled_counter: self.stalled_counter,
            logs: clone_texts(&self.logs),
            priority: self.priority,
        }
    }
}

} // verus!
