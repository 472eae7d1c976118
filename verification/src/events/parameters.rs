//! What event listeners are given.
use crate::error::KioResult;
use crate::events::stream::QueueStreamEvent;
use crate::job::{FailedDetails, JobMetrics, JobState};
use crate::time::TimeSpan;
use vstd::prelude::*;

verus! {

/// The payload delivered to event listeners.
#[derive(Debug)]
#[allow(inconsistent_fields)]
pub enum EventParameters<R, P> {
    /// A job was moved into the priority set.
    Prioritized {
        /// Job id.
        job_id: u64,
        /// Job name.
        name: Option<String>,
        /// Assigned priority.
        priority: u64,
    },
    /// A new job was added.
    Added {
        /// Job id.
        job_id: u64,
        /// Job name.
        name: Option<String>,
    },
    /// A job waits to be processed.
    WaitingToRun {
        /// Job id.
        job_id: u64,
        /// The state before.
        prev_state: Option<JobState>,
    },
    /// A job was delayed.
    Delayed {
        /// Job id.
        job_id: u64,
        /// How long it waits.
        delay: TimeSpan,
    },
    /// A worker picked up a job.
    Active {
        /// Job id.
        job_id: u64,
        /// The state before.
        prev_state: Option<JobState>,
    },
    /// A job finished successfully.
    Completed {
        /// Job id.
        job_id: u64,
        /// Timing and attempt statistics.
        job_metrics: JobMetrics,
        /// The delay the job was configured with.
        expected_delay: TimeSpan,
        /// The state before.
        prev_state: Option<JobState>,
        /// The value the processor returned.
        result: R,
    },
    /// An event without a payload.
    Void,
    /// A progress update.
    Progress {
        /// Job id.
        job_id: u64,
        /// The progress.
        data: P,
    },
    /// A job stalled.
    Stalled {
        /// Job id.
        job_id: u64,
        /// The state before.
        prev_state: JobState,
    },
    /// A job failed for good.
    Failed {
        /// What is recorded of the failure.
        reason: FailedDetails,
        /// Job id.
        job_id: u64,
        /// The state before.
        prev_state: JobState,
    },
    /// A worker started or finished to process a job.
    Processing {
        /// The worker.
        worker_id: u128,
        /// Job id.
        job_id: u64,
        /// The job's state.
        status: JobState,
    },
}

/// The span of `millis` milliseconds.
pub open spec fn span_of_millis(millis: u64) -> TimeSpan {
    TimeSpan { secs: millis / 1000, nanos: ((millis % 1000) * 1_000_000) as u32 }
}

/// The span of `millis` milliseconds.
pub fn millis_span(millis: u64) -> (span: TimeSpan)
    ensures
        span == span_of_millis(millis),
        span.wf(),
        span@ == millis * 1_000_000,
{
    TimeSpan { secs: millis / 1000, nanos: ((millis % 1000) * 1_000_000) as u32 }
}

/// Statistics of which nothing is known.
pub open spec fn no_metrics() -> JobMetrics {
    JobMetrics {
        ran_for: TimeSpan { secs: 0, nanos: 0 },
        delayed_for: TimeSpan { secs: 0, nanos: 0 },
        attempt: 0,
        delay: 0,
        id: 0,
    }
}

impl Default for JobMetrics {
    /// Statistics of which nothing is known.
    fn default() -> (metrics: Self)
        ensures
            metrics == no_metrics(),
    {
        JobMetrics {
            ran_for: TimeSpan { secs: 0, nanos: 0 },
            delayed_for: TimeSpan { secs: 0, nanos: 0 },
            attempt: 0,
            delay: 0,
            id: 0,
        }
    }
}

/// The state, or the default one.
pub open spec fn state_or_wait(state: Option<JobState>) -> JobState {
    match state {
        Some(state) => state,
        None => JobState::Wait,
    }
}

/// The number, or zero.
pub open spec fn number_or_zero(number: Option<u64>) -> u64 {
    match number {
        Some(number) => number,
        None => 0,
    }
}

impl<R, P> EventParameters<R, P> {
    /// An event carries what its kind needs: a completed job its value, a
    /// progress update its progress.
    pub open spec fn complete(event: QueueStreamEvent<R, P>) -> bool {
        &&& event.event == JobState::Completed ==> event.returned_value is Some
        &&& event.event == JobState::Progress ==> event.progress_data is Some
    }

    /// `self` is what listeners are given for `event`.
    pub open spec fn stands_for(self, event: QueueStreamEvent<R, P>) -> bool {
        let job_id = event.job_id;
        match event.event {
            JobState::Prioritized => self == (EventParameters::<R, P>::Prioritized {
                job_id,
                name: event.name,
                priority: number_or_zero(event.priority),
            }),
            JobState::Wait => if event.prev is None {
                self == (EventParameters::<R, P>::Added { job_id, name: event.name })
            } else {
                self == (EventParameters::<R, P>::WaitingToRun { job_id, prev_state: event.prev })
            },
            JobState::Stalled => self == (EventParameters::<R, P>::Stalled {
                job_id,
                prev_state: state_or_wait(event.prev),
            }),
            JobState::Active => self == (EventParameters::<R, P>::Active {
                job_id,
                prev_state: event.prev,
            }),
            JobState::Paused | JobState::Resumed | JobState::Obliterated => self is Void,
            JobState::Completed => {
                let job_metrics = match event.metrics {
                    Some(metrics) => metrics,
                    None => no_metrics(),
                };
                self == (EventParameters::<R, P>::Completed {
                    job_id,
                    job_metrics,
                    expected_delay: span_of_millis(job_metrics.delay),
                    prev_state: event.prev,
                    result: event.returned_value->0,
                })
            },
            JobState::Failed => self matches EventParameters::Failed {
                reason,
                job_id: id,
                prev_state,
            } && id == job_id && prev_state == state_or_wait(event.prev) && match event.failed_reason {
                Some(details) => reason == details,
                None => reason.run == 0 && reason.reason@ == Seq::<char>::empty(),
            },
            JobState::Delayed => self == (EventParameters::<R, P>::Delayed {
                job_id,
                delay: span_of_millis(number_or_zero(event.delay)),
            }),
            JobState::Progress => self == (EventParameters::<R, P>::Progress {
                job_id,
                data: event.progress_data->0,
            }),
            JobState::Processing => self == (EventParameters::<R, P>::Processing {
                worker_id: match event.worker_id {
                    Some(worker_id) => worker_id,
                    None => 0,
                },
                job_id,
                status: state_or_wait(event.prev),
            }),
        }
    }

    /// What listeners are given for a store event.
    pub fn from_queue_event(event: QueueStreamEvent<R, P>) -> (parameters: KioResult<Self>)
        requires
            Self::complete(event),
        ensures
            parameters matches Ok(parameters) && parameters.stands_for(event),
    {
        let job_id: u64 = event.job_id;
        let prev = match event.prev {
            Some(prev) => prev,
            None => JobState::default(),
        };
        let parameter = match event.event {
            JobState::Prioritized => EventParameters::Prioritized {
                job_id,
                name: event.name,
                priority: event.priority.unwrap_or(0),
            },
            JobState::Wait => {
                if event.prev.is_none() {
                    EventParameters::Added { job_id, name: event.name }
                } else {
                    EventParameters::WaitingToRun { job_id, prev_state: event.prev }
                }
            },
            JobState::Stalled => EventParameters::Stalled { job_id, prev_state: prev },
            JobState::Active => EventParameters::Active { job_id, prev_state: event.prev },
            JobState::Paused | JobState::Resumed | JobState::Obliterated => EventParameters::Void,
            JobState::Completed => {
                let job_metrics = match event.metrics {
                    Some(metrics) => metrics,
                    None => JobMetrics::default(),
                };
                EventParameters::Completed {
                    job_metrics,
                    job_id,
                    prev_state: event.prev,
                    expected_delay: millis_span(job_metrics.delay),
                    result: event.returned_value.unwrap(),
                }
            },
            JobState::Failed => {
                let reason = match event.failed_reason {
                    Some(details) => details,
                    None => FailedDetails { run: 0, reason: String::new() },
                };
                EventParameters::Failed { reason, job_id, prev_state: prev }
            },
            JobState::Delayed => EventParameters::Delayed {
                job_id,
                delay: millis_span(event.delay.unwrap_or(0)),
            },
            JobState::Progress => EventParameters::Progress {
                job_id,
                data: event.progress_data.unwrap(),
            },
            JobState::Processing => EventParameters::Processing {
                worker_id: event.worker_id.unwrap_or(0),
                job_id,
                status: prev,
            },
        };
        Ok(parameter)
    }
}

/// A span of milliseconds is as long as they are, and its parts are whole seconds and
/// less than a second; more milliseconds make a longer span.
pub proof fn law_span_has_its_millis(millis: u64, more: u64)
    ensures
        span_of_millis(millis).wf(),
        span_of_millis(millis)@ == millis * 1_000_000,
        millis < more ==> span_of_millis(millis)@ < span_of_millis(more)@,
        span_of_millis(millis) == span_of_millis(more) ==> millis == more,
{
}

/// Listeners are told of the job that the event is about, under the event's kind: what
/// they are given for a kind of event is of that kind, and has the job's id.
pub proof fn law_listeners_are_told_of_the_job<R, P>(
    event: QueueStreamEvent<R, P>,
    given: EventParameters<R, P>,
)
    requires
        given.stands_for(event),
    ensures
        match event.event {
            JobState::Prioritized => given matches EventParameters::Prioritized {
                job_id,
                name,
                priority,
            } && job_id == event.job_id && name == event.name && (event.priority matches Some(
                number,
            ) ==> priority == number) && (event.priority is None ==> priority == 0),
            JobState::Wait => match event.prev {
                None => given matches EventParameters::Added { job_id, name } && job_id
                    == event.job_id && name == event.name,
                Some(state) => given matches EventParameters::WaitingToRun { job_id, prev_state }
                    && job_id == event.job_id && prev_state == Some(state),
            },
            JobState::Delayed => given matches EventParameters::Delayed { job_id, delay } && job_id
                == event.job_id && (event.delay matches Some(millis) ==> delay@ == millis
                * 1_000_000) && (event.delay is None ==> delay@ == 0),
            JobState::Active => given matches EventParameters::Active { job_id, prev_state }
                && job_id == event.job_id && prev_state == event.prev,
            JobState::Stalled => given matches EventParameters::Stalled { job_id, prev_state }
                && job_id == event.job_id && (event.prev matches Some(state) ==> prev_state
                == state) && (event.prev is None ==> prev_state == JobState::Wait),
            JobState::Progress => given matches EventParameters::Progress { job_id, data }
                && job_id == event.job_id && (event.progress_data matches Some(progress)
                ==> data == progress),
            JobState::Processing => given matches EventParameters::Processing {
                worker_id,
                job_id,
                status,
            } && job_id == event.job_id && (event.worker_id matches Some(worker) ==> worker_id
                == worker) && (event.prev matches Some(state) ==> status == state),
            JobState::Paused | JobState::Resumed | JobState::Obliterated => given is Void,
            JobState::Completed => given matches EventParameters::Completed { job_id, .. }
                && job_id == event.job_id,
            JobState::Failed => given matches EventParameters::Failed { job_id, .. } && job_id
                == event.job_id,
        },
{
    law_span_has_its_millis(number_or_zero(event.delay), 0);
}

/// Listeners of a completed job get the value that the processor returned, the
/// statistics of the run, and the delay that the job was to have; those of a failed job
/// get the reason that was recorded.
pub proof fn law_listeners_get_the_outcome<R, P>(
    event: QueueStreamEvent<R, P>,
    given: EventParameters<R, P>,
)
    requires
        given.stands_for(event),
    ensures
        event.event == JobState::Completed ==> (given matches EventParameters::Completed {
            job_metrics,
            expected_delay,
            prev_state,
            result,
            ..
        } && prev_state == event.prev && (event.returned_value matches Some(value) ==> result
            == value) && (event.metrics matches Some(metrics) ==> job_metrics == metrics
            && expected_delay@ == metrics.delay * 1_000_000)),
        event.event == JobState::Failed ==> (given matches EventParameters::Failed {
            reason,
            prev_state,
            ..
        } && (event.failed_reason matches Some(details) ==> reason == details) && (
        event.failed_reason is None ==> reason.run == 0 && reason.reason@.len() == 0) && (
        event.prev matches Some(state) ==> prev_state == state)),
{
    if let Some(metrics) = event.metrics {
        law_span_has_its_millis(metrics.delay, 0);
    }
}

/// Every event but that of a completed job and of a progress update can be told of; and
/// those two can, once they carry their value.
pub proof fn law_complete_events_can_be_told<R, P>(event: QueueStreamEvent<R, P>)
    ensures
        event.event != JobState::Completed && event.event != JobState::Progress
            ==> EventParameters::complete(event),
        event.returned_value is Some && event.progress_data is Some ==> EventParameters::complete(
            event,
        ),
        event.event == JobState::Completed && event.returned_value is None
            ==> !EventParameters::complete(event),
        event.event == JobState::Progress && event.progress_data is None
            ==> !EventParameters::complete(event),
{
}

} // verus!
