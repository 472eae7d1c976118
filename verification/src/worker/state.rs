//! The lifecycle of a worker.
use crate::error::WorkerError;
use crate::outside::uuid::random_uuid;
use crate::time::Dt;
use crate::worker::worker_opts::WorkerOpts;
use vstd::prelude::*;

verus! {

/// The lifecycle state of a worker.
#[derive(Debug, Clone, Copy, PartialEq, Eq, Structural)]
pub enum WorkerState {
    /// The worker polls and processes jobs.
    Active,
    /// The worker has not been started, or sleeps.
    Idle,
    /// The worker has been shut down.
    Closed,
}

impl Default for WorkerState {
    /// Not started.
    fn default() -> (state: Self)
        ensures
            state == WorkerState::Idle,
    {
        WorkerState::Idle
    }
}

/// A worker's identity, options and state.
#[derive(Debug, Clone, Copy)]
pub struct Worker {
    /// When the worker was made.
    pub created_at: Dt,
    /// The worker's identifier.
    pub id: u128,
    /// Its options.
    pub opts: WorkerOpts,
    /// Its lifecycle state.
    pub state: WorkerState,
    /// Whether it was started.
    pub started: bool,
    /// Whether it was told to stop.
    pub cancelled: bool,
}

impl Worker {
    /// A worker that was just made.
    pub open spec fn fresh(id: u128, created_at: Dt, opts: WorkerOpts) -> Worker {
        Worker { created_at, id, opts, state: WorkerState::Idle, started: false, cancelled: false }
    }

    /// The worker runs and does not sleep.
    pub open spec fn running(self) -> bool {
        self.state == WorkerState::Active && !self.cancelled
    }

    /// The worker was started and not stopped; it may sleep.
    pub open spec fn in_service(self) -> bool {
        self.started && !self.is_closed()
    }

    /// The worker was told to stop, or has stopped.
    pub open spec fn is_closed(self) -> bool {
        self.cancelled || self.state == WorkerState::Closed
    }

    /// A worker with this identity, not yet started.
    pub fn with_id(id: u128, created_at: Dt, opts: WorkerOpts) -> (worker: Self)
        ensures
            worker == Self::fresh(id, created_at, opts),
    {
        Worker {
            created_at,
            id,
            opts,
            state: WorkerState::default(),
            started: false,
            cancelled: false,
        }
    }

    /// A worker with a random identifier; started at once where the options say
    /// so.
    pub fn new(opts: Option<WorkerOpts>) -> (worker: Self)
        ensures
            opts matches Some(opts) ==> worker.opts == opts,
            opts is None ==> worker.opts == WorkerOpts::standard(worker.opts.concurrency)
                && worker.opts.concurrency >= 1,
            worker == (Worker {
                state: if worker.opts.autorun {
                    WorkerState::Active
                } else {
                    WorkerState::Idle
                },
                started: worker.opts.autorun,
                ..Self::fresh(worker.id, worker.created_at, worker.opts)
            }),
    {
        let opts = match opts {
            Some(opts) => opts,
            None => WorkerOpts::default(),
        };
        let mut worker = Self::with_id(random_uuid(), Dt::now(), opts);
        if worker.opts.autorun {
            let _ = worker.run();
        }
        worker
    }

    /// Whether the worker runs and does not sleep.
    pub fn is_running(&self) -> (running: bool)
        ensures
            running == self.running(),
    {
        self.state == WorkerState::Active && !self.cancelled
    }

    /// Whether the worker was started and sleeps.
    pub fn is_idle(&self) -> (idle: bool)
        ensures
            idle == (self.started && self.state == WorkerState::Idle),
    {
        self.started && self.state == WorkerState::Idle
    }

    /// What starting the worker says, and the worker after it: a closed one
    /// cannot be started, and none is started twice, even while it sleeps.
    pub open spec fn after_run(self) -> (Result<(), WorkerError>, Worker) {
        if self.is_closed() {
            (Err(WorkerError::WorkerAlreadyClosed(self.id)), self)
        } else if self.started {
            (Err(WorkerError::WorkerAlreadyRunningWithId(self.id)), self)
        } else {
            (Ok(()), Worker { state: WorkerState::Active, started: true, ..self })
        }
    }

    /// Starts the worker. A closed one cannot be started, and none is started
    /// twice, even while it sleeps.
    pub fn run(&mut self) -> (result: Result<(), WorkerError>)
        ensures
            (result, *final(self)) == old(self).after_run(),
    {
        if self.closed() {
            return Err(WorkerError::WorkerAlreadyClosed(self.id));
        }
        if self.started {
            return Err(WorkerError::WorkerAlreadyRunningWithId(self.id));
        }
        self.started = true;
        self.state = WorkerState::Active;
        Ok(())
    }

    /// Whether the worker was told to stop, or has stopped.
    pub fn closed(&self) -> (closed: bool)
        ensures
            closed == self.is_closed(),
    {
        self.cancelled || self.state == WorkerState::Closed
    }

    /// Whether closing the worker stops anything, and the worker after it.
    pub open spec fn after_close(self) -> (bool, Worker) {
        if self.in_service() {
            (true, Worker { cancelled: true, ..self })
        } else {
            (false, self)
        }
    }

    /// Tells a worker that was started to stop, even while it sleeps; says
    /// whether there was anything to stop.
    pub fn close(&mut self) -> (stopped: bool)
        ensures
            (stopped, *final(self)) == old(self).after_close(),
    {
        if !self.started || self.closed() {
            return false;
        }
        self.cancelled = true;
        true
    }
}

/// A worker that was started and is closed, whether it sleeps or not, stays
/// closed: it cannot be started again, closing it again changes nothing, and no
/// step of its loop opens it.
pub proof fn law_closed_stays_closed(worker: Worker, event: LoopEvent)
    requires
        worker.in_service(),
    ensures
        ({
            let closed = worker.after_close().1;
            &&& closed.is_closed() && !closed.running()
            &&& closed.after_run() == (
                Err::<(), WorkerError>(WorkerError::WorkerAlreadyClosed(worker.id)),
                closed,
            )
            &&& closed.after_close() == (false, closed)
            &&& closed.after_step(event).is_closed()
        }),
{
}

/// A worker that was started runs, and is not started twice, nor after any step
/// of its loop: it fails, and says whether the worker runs or was closed. What can
/// be closed after it was started can be closed after any step that does not close
/// it.
pub proof fn law_started_once(worker: Worker, event: LoopEvent)
    requires
        worker.after_run().0 is Ok,
    ensures
        ({
            let started = worker.after_run().1;
            let later = started.after_step(event);
            &&& started.running()
            &&& started.after_run() == (
                Err::<(), WorkerError>(WorkerError::WorkerAlreadyRunningWithId(worker.id)),
                started,
            )
            &&& later.after_run().0 is Err && later.after_run().1 == later
            &&& later.state != WorkerState::Closed ==> later.after_close().0
        }),
{
}

/// What the main loop of a worker is told.
#[derive(Debug, Clone, Copy, PartialEq, Eq, Structural)]
pub enum LoopEvent {
    /// The loop comes round: whether it was told to stop, whether workers are
    /// paused, how many permits are free, how many jobs are being processed.
    Round {
        /// Told to stop.
        cancelled: bool,
        /// Workers are paused.
        paused: bool,
        /// Free permits.
        permits: usize,
        /// Jobs being processed.
        processing: usize,
    },
    /// The wait of a paused worker is over: told to stop meanwhile, or woken.
    Woken {
        /// Told to stop.
        cancelled: bool,
        /// Free permits.
        permits: usize,
        /// Jobs being processed.
        processing: usize,
    },
    /// A permit was granted, or there will be none any more.
    Permit(bool),
    /// The next job was asked for: a job with its id, a job without one, or
    /// none.
    Fetched(FetchedJob),
    /// The loop has ended; whether it was told to.
    Ended {
        /// Told to stop.
        cancelled: bool,
    },
    /// The jobs that were being processed have ended.
    Drained,
}

/// What came of asking for the next job.
#[derive(Debug, Clone, Copy, PartialEq, Eq, Structural)]
pub enum FetchedJob {
    /// A job with this id.
    WithId(u64),
    /// A job without an id.
    WithoutId,
    /// No job, or an error.
    Nothing,
}

/// What the main loop of a worker does next.
#[derive(Debug, Clone, Copy, PartialEq, Eq, Structural)]
pub enum LoopAction {
    /// Leave the loop.
    Leave,
    /// Wait until woken or told to stop.
    AwaitWake,
    /// Let others run, then come round.
    Yield,
    /// Ask for a permit.
    AcquirePermit,
    /// Ask for the next job.
    Fetch,
    /// Start to process this job, let others run, then come round.
    Start(u64),
    /// Give the permit back, sleep this many milliseconds, then come round.
    Sleep(u64),
    /// Wait for the jobs that are being processed.
    Drain,
    /// Do nothing more.
    Done,
}

/// The next action once the worker is awake.
pub open spec fn awake_action(permits: usize, processing: usize, concurrency: usize) -> LoopAction {
    if permits == 0 || processing >= concurrency {
        LoopAction::Yield
    } else {
        LoopAction::AcquirePermit
    }
}

/// State and action that follow an event.
pub open spec fn loop_step(state: WorkerState, concurrency: usize, event: LoopEvent) -> (
    WorkerState,
    LoopAction,
) {
    match event {
        LoopEvent::Round { cancelled, paused, permits, processing } => if cancelled {
            (state, LoopAction::Leave)
        } else if paused {
            (WorkerState::Idle, LoopAction::AwaitWake)
        } else {
            (state, awake_action(permits, processing, concurrency))
        },
        LoopEvent::Woken { cancelled, permits, processing } => if cancelled {
            (state, LoopAction::Leave)
        } else {
            (WorkerState::Active, awake_action(permits, processing, concurrency))
        },
        LoopEvent::Permit(granted) => if granted {
            (state, LoopAction::Fetch)
        } else {
            (state, LoopAction::Leave)
        },
        LoopEvent::Fetched(FetchedJob::WithId(id)) => (state, LoopAction::Start(id)),
        LoopEvent::Fetched(FetchedJob::WithoutId) => (state, LoopAction::Yield),
        LoopEvent::Fetched(FetchedJob::Nothing) => (
            state,
            LoopAction::Sleep(crate::worker::worker_opts::MIN_DELAY_MS_LIMIT),
        ),
        LoopEvent::Ended { cancelled } => (
            state,
            if cancelled {
                LoopAction::Drain
            } else {
                LoopAction::Done
            },
        ),
        LoopEvent::Drained => (WorkerState::Closed, LoopAction::Done),
    }
}

/// The next action once the worker is awake: let others run while there is no
/// room for one more job, else ask for a permit.
fn next_when_awake(permits: usize, processing: usize, concurrency: usize) -> (action: LoopAction)
    ensures
        action == awake_action(permits, processing, concurrency),
{
    if permits == 0 || processing >= concurrency {
        LoopAction::Yield
    } else {
        LoopAction::AcquirePermit
    }
}

impl Worker {
    /// The worker after one step of its main loop.
    pub open spec fn after_step(self, event: LoopEvent) -> Worker {
        Worker { state: loop_step(self.state, self.opts.concurrency, event).0, ..self }
    }

    /// One step of the worker's main loop.
    pub fn main_loop(&mut self, event: LoopEvent) -> (action: LoopAction)
        ensures
            action == loop_step(old(self).state, old(self).opts.concurrency, event).1,
            *final(self) == old(self).after_step(event),
    {
        match event {
            LoopEvent::Round { cancelled, paused, permits, processing } => {
                if cancelled {
                    return LoopAction::Leave;
                }
                if paused {
                    self.state = WorkerState::Idle;
                    return LoopAction::AwaitWake;
                }
                next_when_awake(permits, processing, self.opts.concurrency)
            },
            LoopEvent::Woken { cancelled, permits, processing } => {
                if cancelled {
                    return LoopAction::Leave;
                }
                self.state = WorkerState::Active;
                next_when_awake(permits, processing, self.opts.concurrency)
            },
            LoopEvent::Permit(granted) => {
                if granted {
                    LoopAction::Fetch
                } else {
                    LoopAction::Leave
                }
            },
            LoopEvent::Fetched(FetchedJob::WithId(id)) => LoopAction::Start(id),
            LoopEvent::Fetched(FetchedJob::WithoutId) => LoopAction::Yield,
            LoopEvent::Fetched(FetchedJob::Nothing) => LoopAction::Sleep(
                crate::worker::worker_opts::MIN_DELAY_MS_LIMIT,
            ),
            LoopEvent::Ended { cancelled } => {
                if cancelled {
                    LoopAction::Drain
                } else {
                    LoopAction::Done
                }
            },
            LoopEvent::Drained => {
                self.state = WorkerState::Closed;
                LoopAction::Done
            },
        }
    }

    /// The token for the next job: the worker, a random identifier, and the
    /// number of jobs being processed.
    pub fn next_token(&self, active_jobs: u64) -> (token: crate::job::JobToken)
        ensures
            token.0 == self.id,
            token.2 == active_jobs,
    {
        crate::job::JobToken(self.id, random_uuid(), active_jobs)
    }
}

/// A permit is asked for only while fewer jobs are being processed than the
/// worker may process at a time, and only while it was not told to stop.
pub proof fn law_concurrency_is_kept(state: WorkerState, concurrency: usize, event: LoopEvent)
    ensures
        loop_step(state, concurrency, event).1 == LoopAction::AcquirePermit ==> match event {
            LoopEvent::Round { cancelled, paused, permits, processing } => !cancelled && !paused
                && permits > 0 && processing < concurrency,
            LoopEvent::Woken { cancelled, permits, processing } => !cancelled && permits > 0
                && processing < concurrency,
            _ => false,
        },
{
}

/// A worker with room for one more job takes one: while it was neither told to stop
/// nor paused, a permit is free and fewer jobs are being processed than it may
/// process at a time, it asks for a permit, however many jobs are being processed; a
/// permit that was granted is used to ask for a job, and a job that came is started
/// under its own id.
pub proof fn law_room_is_used(
    state: WorkerState,
    concurrency: usize,
    permits: usize,
    processing: usize,
    id: u64,
)
    requires
        permits > 0,
        processing < concurrency,
    ensures
        loop_step(
            state,
            concurrency,
            LoopEvent::Round { cancelled: false, paused: false, permits, processing },
        ) == (state, LoopAction::AcquirePermit),
        loop_step(
            state,
            concurrency,
            LoopEvent::Woken { cancelled: false, permits, processing },
        ) == (WorkerState::Active, LoopAction::AcquirePermit),
        loop_step(state, concurrency, LoopEvent::Permit(true)) == (state, LoopAction::Fetch),
        loop_step(state, concurrency, LoopEvent::Fetched(FetchedJob::WithId(id))) == (
            state,
            LoopAction::Start(id),
        ),
{
}

/// A worker without room for one more job lets others run and stays as it is; it
/// neither leaves its loop nor sleeps.
pub proof fn law_full_worker_comes_round(
    state: WorkerState,
    concurrency: usize,
    permits: usize,
    processing: usize,
)
    requires
        permits == 0 || processing >= concurrency,
    ensures
        loop_step(
            state,
            concurrency,
            LoopEvent::Round { cancelled: false, paused: false, permits, processing },
        ) == (state, LoopAction::Yield),
        loop_step(
            state,
            concurrency,
            LoopEvent::Woken { cancelled: false, permits, processing },
        ) == (WorkerState::Active, LoopAction::Yield),
{
}

/// A worker leaves its loop exactly when it was told to stop or there will be no
/// permit any more, whatever room it has; one that is only paused sleeps until it is
/// woken, and is active from then on.
pub proof fn law_worker_leaves_when_told(
    state: WorkerState,
    concurrency: usize,
    paused: bool,
    permits: usize,
    processing: usize,
    event: LoopEvent,
)
    ensures
        loop_step(state, concurrency, event).1 == LoopAction::Leave <==> match event {
            LoopEvent::Round { cancelled, .. } => cancelled,
            LoopEvent::Woken { cancelled, .. } => cancelled,
            LoopEvent::Permit(granted) => !granted,
            _ => false,
        },
        loop_step(
            state,
            concurrency,
            LoopEvent::Round { cancelled: true, paused, permits, processing },
        ).0 == state,
        loop_step(
            state,
            concurrency,
            LoopEvent::Woken { cancelled: true, permits, processing },
        ).0 == state,
        loop_step(
            state,
            concurrency,
            LoopEvent::Round { cancelled: false, paused: true, permits, processing },
        ) == (WorkerState::Idle, LoopAction::AwaitWake),
        loop_step(
            WorkerState::Idle,
            concurrency,
            LoopEvent::Woken { cancelled: false, permits, processing },
        ).0 == WorkerState::Active,
{
}

/// A worker that found no job sleeps for a while and comes round again; one that
/// got a job without an id comes round at once. A worker that was told to stop waits
/// for the jobs it started, and is closed when they have ended; a loop that ended of
/// itself leaves the worker as it is.
pub proof fn law_loop_goes_on_until_it_ends(state: WorkerState, concurrency: usize)
    ensures
        loop_step(state, concurrency, LoopEvent::Fetched(FetchedJob::Nothing)) == (
            state,
            LoopAction::Sleep(crate::worker::worker_opts::MIN_DELAY_MS_LIMIT),
        ),
        loop_step(state, concurrency, LoopEvent::Fetched(FetchedJob::WithoutId)) == (
            state,
            LoopAction::Yield,
        ),
        loop_step(state, concurrency, LoopEvent::Permit(false)).0 == state,
        loop_step(state, concurrency, LoopEvent::Ended { cancelled: true }) == (
            state,
            LoopAction::Drain,
        ),
        loop_step(state, concurrency, LoopEvent::Ended { cancelled: false }) == (
            state,
            LoopAction::Done,
        ),
        loop_step(state, concurrency, LoopEvent::Drained) == (
            WorkerState::Closed,
            LoopAction::Done,
        ),
{
}

/// The life of a worker: a new one is neither running nor closed, has not been
/// started, and can be; a started one runs, keeps its id and its options, and can be
/// closed once; one that was never started has nothing to close.
pub proof fn law_worker_lives_once(id: u128, created_at: Dt, opts: WorkerOpts)
    ensures
        ({
            let fresh = Worker::fresh(id, created_at, opts);
            let (result, started) = fresh.after_run();
            let (stopped, closed) = started.after_close();
            &&& fresh.id == id && fresh.created_at == created_at && fresh.opts == opts
            &&& !fresh.running() && !fresh.in_service() && !fresh.is_closed()
            &&& fresh.after_close() == (false, fresh)
            &&& result is Ok
            &&& started.running() && started.in_service() && !started.is_closed()
            &&& started.id == id && started.created_at == created_at && started.opts == opts
            &&& stopped
            &&& closed.is_closed() && !closed.running() && !closed.in_service()
            &&& closed.id == id && closed.created_at == created_at && closed.opts == opts
        }),
{
}

/// A worker of any state can be started exactly while it was neither started nor
/// closed, and a failed attempt says why and changes nothing.
pub proof fn law_start_is_refused_for_a_reason(worker: Worker)
    ensures
        worker.after_run().0 is Ok <==> !worker.started && !worker.cancelled && worker.state
            != WorkerState::Closed,
        worker.after_run().0 is Err ==> worker.after_run().1 == worker,
        worker.cancelled || worker.state == WorkerState::Closed ==> worker.after_run().0
            == Err::<(), WorkerError>(WorkerError::WorkerAlreadyClosed(worker.id)),
        worker.started && !worker.cancelled && worker.state != WorkerState::Closed
            ==> worker.after_run().0 == Err::<(), WorkerError>(
            WorkerError::WorkerAlreadyRunningWithId(worker.id),
        ),
        worker.after_close().0 <==> worker.started && !worker.cancelled && worker.state
            != WorkerState::Closed,
        !worker.after_close().0 ==> worker.after_close().1 == worker,
        worker.after_close().0 ==> worker.after_close().1 == (Worker { cancelled: true, ..worker }),
        worker.running() <==> worker.state == WorkerState::Active && !worker.cancelled,
{
}

/// The loop closes a worker only when the jobs it waited for have ended, and
/// waits for them only when it was told to stop.
pub proof fn law_loop_closes_on_demand(state: WorkerState, concurrency: usize, event: LoopEvent)
    ensures
        loop_step(state, concurrency, event).0 == WorkerState::Closed ==> state
            == WorkerState::Closed || event == LoopEvent::Drained,
        loop_step(state, concurrency, event).1 == LoopAction::Drain ==> event == (LoopEvent::Ended {
            cancelled: true,
        }),
{
}

/// What happens while a main loop runs.
pub enum LoopMoment {
    /// The loop is told of an event, and takes a step.
    Told(LoopEvent),
    /// A job that was started ends.
    JobEnded,
}

/// Where a main loop stands.
pub struct LoopRun {
    /// The lifecycle state of the worker.
    pub state: WorkerState,
    /// The action that the last step asked for; none before the first step.
    pub asked: Option<LoopAction>,
    /// How many jobs were started.
    pub started: nat,
    /// How many of them have ended.
    pub ended: nat,
}

impl LoopRun {
    /// Before the first step.
    pub open spec fn begun(state: WorkerState) -> LoopRun {
        LoopRun { state, asked: None, started: 0, ended: 0 }
    }

    /// How many jobs are being processed.
    pub open spec fn processing(self) -> int {
        self.started - self.ended
    }

    /// After one moment: a step that says so starts a job.
    pub open spec fn after(self, concurrency: usize, moment: LoopMoment) -> LoopRun {
        match moment {
            LoopMoment::Told(event) => {
                let (state, action) = loop_step(self.state, concurrency, event);
                LoopRun {
                    state,
                    asked: Some(action),
                    started: if action is Start {
                        self.started + 1
                    } else {
                        self.started
                    },
                    ended: self.ended,
                }
            },
            LoopMoment::JobEnded => LoopRun { ended: self.ended + 1, ..self },
        }
    }

    /// The moment can follow: the event answers the action that was asked for
    /// and counts the jobs being processed right, the wait for them is over when
    /// none is left, and only a job that was started ends.
    pub open spec fn can_follow(self, moment: LoopMoment) -> bool {
        match moment {
            LoopMoment::Told(event) => match event {
                LoopEvent::Round { processing, .. } => processing == self.processing()
                    && match self.asked {
                    None => true,
                    Some(action) => action is Yield || action is Start || action is Sleep,
                },
                LoopEvent::Woken { processing, .. } => processing == self.processing()
                    && self.asked == Some(LoopAction::AwaitWake),
                LoopEvent::Permit(_) => self.asked == Some(LoopAction::AcquirePermit),
                LoopEvent::Fetched(_) => self.asked == Some(LoopAction::Fetch),
                LoopEvent::Ended { .. } => self.asked == Some(LoopAction::Leave),
                LoopEvent::Drained => self.asked == Some(LoopAction::Drain)
                    && self.processing() == 0,
            },
            LoopMoment::JobEnded => self.processing() > 0,
        }
    }
}

/// Where the main loop of a worker stands after these moments.
pub open spec fn run_of(
    state: WorkerState,
    concurrency: usize,
    moments: Seq<LoopMoment>,
) -> LoopRun
    decreases moments.len(),
{
    if moments.len() == 0 {
        LoopRun::begun(state)
    } else {
        run_of(state, concurrency, moments.drop_last()).after(concurrency, moments.last())
    }
}

/// Each of the moments can follow those before it.
pub open spec fn is_run(state: WorkerState, concurrency: usize, moments: Seq<LoopMoment>) -> bool
    decreases moments.len(),
{
    moments.len() > 0 ==> is_run(state, concurrency, moments.drop_last()) && run_of(
        state,
        concurrency,
        moments.drop_last(),
    ).can_follow(moments.last())
}

/// The loop was told to stop.
pub open spec fn told_to_stop(moments: Seq<LoopMoment>) -> bool {
    moments.contains(LoopMoment::Told(LoopEvent::Ended { cancelled: true }))
}

/// Whatever happens while a main loop runs, a worker never processes more jobs
/// at a time than its concurrency allows, and it is closed only after it was told
/// to stop and every job that it started has ended.
pub proof fn law_concurrency_over_a_run(
    state: WorkerState,
    concurrency: usize,
    moments: Seq<LoopMoment>,
)
    requires
        is_run(state, concurrency, moments),
        state != WorkerState::Closed,
    ensures
        0 <= run_of(state, concurrency, moments).processing() <= concurrency,
        run_of(state, concurrency, moments).state == WorkerState::Closed ==> run_of(
            state,
            concurrency,
            moments,
        ).processing() == 0 && told_to_stop(moments),
{
    lemma_run(state, concurrency, moments);
}

/// What holds wherever a main loop stands: there is room for one more job while
/// one is asked for, a wait for the jobs follows the order to stop, and a closed
/// worker does nothing more.
proof fn lemma_run(state: WorkerState, concurrency: usize, moments: Seq<LoopMoment>)
    requires
        is_run(state, concurrency, moments),
        state != WorkerState::Closed,
    ensures
        ({
            let run = run_of(state, concurrency, moments);
            &&& 0 <= run.processing() <= concurrency
            &&& run.asked == Some(LoopAction::AcquirePermit) || run.asked == Some(LoopAction::Fetch)
                ==> run.processing() < concurrency
            &&& run.asked == Some(LoopAction::Drain) ==> told_to_stop(moments)
            &&& run.state == WorkerState::Closed ==> run.asked == Some(LoopAction::Done)
                && run.processing() == 0 && told_to_stop(moments)
        }),
    decreases moments.len(),
{
    if moments.len() > 0 {
        let rest = moments.drop_last();
        let stop = LoopMoment::Told(LoopEvent::Ended { cancelled: true });
        lemma_run(state, concurrency, rest);
        if rest.contains(stop) {
            let i = choose|i: int| 0 <= i < rest.len() && rest[i] == stop;
            assert(moments[i] == stop);
        }
        if moments.last() == stop {
            assert(moments[moments.len() - 1] == stop);
        }
    }
}

} // verus!
