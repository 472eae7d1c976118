//! A repeating timer that can be paused, resumed and stopped.
use vstd::prelude::*;

verus! {

/// The state of a timer.
#[derive(Debug, Clone, Copy, PartialEq, Eq, Structural)]
pub enum TimerState {
    /// Not started, or stopped.
    Stopped,
    /// Ticking.
    Active,
    /// Suspended.
    Paused,
}

impl Default for TimerState {
    /// Not started.
    fn default() -> (state: Self)
        ensures
            state == TimerState::Stopped,
    {
        TimerState::Stopped
    }
}

/// A timer that calls back at a fixed interval.
#[derive(Debug, Clone, Copy, PartialEq, Eq, Structural)]
pub struct Timer {
    /// The interval in milliseconds.
    pub interval_ms: u64,
    /// Its state.
    pub state: TimerState,
    /// The first call is made before the first interval is over.
    pub skip_first_tick: bool,
    /// The timer was stopped for good.
    pub cancelled: bool,
}

/// What the loop of a running timer does next.
#[derive(Debug, Clone, Copy, PartialEq, Eq, Structural)]
pub enum TimerAction {
    /// Wait for the next tick.
    Tick,
    /// Wait to be resumed or stopped.
    AwaitResume,
    /// Call back, then wait for the next tick.
    CallBack,
    /// End.
    End,
}

impl Timer {
    /// A timer that was just made.
    pub open spec fn fresh(delay_ms: u64) -> Timer {
        Timer {
            interval_ms: delay_ms,
            state: TimerState::Stopped,
            skip_first_tick: false,
            cancelled: false,
        }
    }

    /// A timer that will call back every `delay_ms` milliseconds once it runs.
    pub fn new(delay_ms: u64) -> (timer: Self)
        ensures
            timer == Self::fresh(delay_ms),
    {
        Timer {
            interval_ms: delay_ms,
            state: TimerState::default(),
            skip_first_tick: false,
            cancelled: false,
        }
    }

    /// Lets the first call be made at once; says whether this is the first time
    /// it was asked for.
    pub fn should_skip_first_tick(&mut self) -> (first: bool)
        ensures
            first == !old(self).skip_first_tick,
            *final(self) == (Timer { skip_first_tick: true, ..*old(self) }),
    {
        let first = !self.skip_first_tick;
        self.skip_first_tick = true;
        first
    }

    /// The timer after it was suspended, where it ticked.
    pub open spec fn suspended(self) -> Timer {
        if self.state == TimerState::Active {
            Timer { state: TimerState::Paused, ..self }
        } else {
            self
        }
    }

    /// Suspends a ticking timer.
    pub fn pause(&mut self)
        ensures
            *final(self) == old(self).suspended(),
    {
        if self.state == TimerState::Active {
            self.state = TimerState::Paused;
        }
    }

    /// Whether starting the timer starts it, and the timer after it.
    pub open spec fn after_run(self) -> (bool, Timer) {
        if self.state != TimerState::Active && !self.cancelled {
            (true, Timer { state: TimerState::Active, ..self })
        } else {
            (false, self)
        }
    }

    /// The timer after it was stopped.
    pub open spec fn stopped(self) -> Timer {
        Timer { state: TimerState::Stopped, cancelled: true, ..self }
    }

    /// Starts the timer; says whether it has to be driven from now on. A timer
    /// that ticks is not started twice, and one that was stopped not again.
    pub fn run(&mut self) -> (started: bool)
        ensures
            (started, *final(self)) == old(self).after_run(),
    {
        if self.is_running() || self.cancelled {
            return false;
        }
        self.state = TimerState::Active;
        true
    }

    /// Stops the timer for good.
    pub fn stop(&mut self)
        ensures
            *final(self) == old(self).stopped(),
    {
        self.cancelled = true;
        self.state = TimerState::Stopped;
    }

    /// Whether the timer ticks.
    pub fn is_running(&self) -> (running: bool)
        ensures
            running == (self.state == TimerState::Active),
    {
        self.state == TimerState::Active
    }

    /// Resumes a suspended timer; says whether its loop has to be woken.
    pub fn resume(&self) -> (wake: bool)
        ensures
            wake == (self.state == TimerState::Paused),
    {
        self.state == TimerState::Paused
    }

    /// What the loop does when it starts: wait for the first tick, unless that
    /// is skipped.
    pub fn first_action(&self) -> (action: TimerAction)
        ensures
            action == (if self.skip_first_tick {
                self.next()
            } else {
                TimerAction::Tick
            }),
    {
        if self.skip_first_tick {
            self.next_action()
        } else {
            TimerAction::Tick
        }
    }

    /// What the loop does when it comes round.
    pub open spec fn next(self) -> TimerAction {
        if self.cancelled {
            TimerAction::End
        } else if self.state == TimerState::Paused {
            TimerAction::AwaitResume
        } else {
            TimerAction::CallBack
        }
    }

    /// What the loop does when it comes round.
    pub fn next_action(&self) -> (action: TimerAction)
        ensures
            action == self.next(),
    {
        if self.cancelled {
            TimerAction::End
        } else if self.state == TimerState::Paused {
            TimerAction::AwaitResume
        } else {
            TimerAction::CallBack
        }
    }

    /// The timer after its wait to be resumed was over.
    pub open spec fn after_wait(self, stopped: bool) -> Timer {
        Timer {
            state: if stopped {
                TimerState::Stopped
            } else {
                TimerState::Active
            },
            ..self
        }
    }

    /// The wait of a suspended timer is over: it was stopped meanwhile, or it
    /// ticks again.
    pub fn woken(&mut self, stopped: bool) -> (action: TimerAction)
        ensures
            *final(self) == old(self).after_wait(stopped),
            action == (if stopped {
                TimerAction::End
            } else {
                TimerAction::CallBack
            }),
    {
        if stopped {
            self.state = TimerState::Stopped;
            TimerAction::End
        } else {
            self.state = TimerState::Active;
            TimerAction::CallBack
        }
    }
}

/// A stopped timer does not call back any more; it can neither be started
/// again nor suspended.
pub proof fn law_stopped_timer_ends(timer: Timer)
    ensures
        timer.stopped().next() == TimerAction::End,
        timer.stopped().after_run() == (false, timer.stopped()),
        timer.stopped().suspended() == timer.stopped(),
{
}

/// A ticking timer that is suspended does not call back, and ticks again once
/// it is resumed.
pub proof fn law_resumed_timer_ticks(timer: Timer)
    requires
        timer.state == TimerState::Active,
        !timer.cancelled,
    ensures
        timer.suspended().next() == TimerAction::AwaitResume,
        timer.suspended().after_wait(false) == timer,
        timer.suspended().after_wait(true).state == TimerState::Stopped,
{
}

/// A timer that was just made waits for its interval, ticks when it is started, and
/// is started once: starting it again while it ticks changes nothing.
pub proof fn law_new_timer_can_be_started(delay_ms: u64)
    ensures
        ({
            let fresh = Timer::fresh(delay_ms);
            let (started, running) = fresh.after_run();
            &&& fresh.interval_ms == delay_ms && fresh.state == TimerState::Stopped
            &&& !fresh.skip_first_tick && !fresh.cancelled
            &&& started
            &&& running.state == TimerState::Active && running.interval_ms == delay_ms
            &&& running.next() == TimerAction::CallBack
            &&& running.after_run() == (false, running)
        }),
{
}

/// A timer starts exactly while it neither ticks nor was stopped for good, a suspended
/// one among them; it calls back exactly while it is neither suspended nor stopped for
/// good; and only a ticking timer can be suspended.
pub proof fn law_timer_does_what_its_state_says(timer: Timer)
    ensures
        timer.after_run().0 <==> timer.state != TimerState::Active && !timer.cancelled,
        timer.after_run().0 ==> timer.after_run().1 == (Timer {
            state: TimerState::Active,
            ..timer
        }),
        !timer.after_run().0 ==> timer.after_run().1 == timer,
        timer.next() == TimerAction::End <==> timer.cancelled,
        timer.next() == TimerAction::AwaitResume <==> !timer.cancelled && timer.state
            == TimerState::Paused,
        timer.next() == TimerAction::CallBack <==> !timer.cancelled && timer.state
            != TimerState::Paused,
        timer.state == TimerState::Active ==> timer.suspended() == (Timer {
            state: TimerState::Paused,
            ..timer
        }),
        timer.state != TimerState::Active ==> timer.suspended() == timer,
        timer.stopped() == (Timer { state: TimerState::Stopped, cancelled: true, ..timer }),
        timer.after_wait(false) == (Timer { state: TimerState::Active, ..timer }),
        timer.after_wait(true) == (Timer { state: TimerState::Stopped, ..timer }),
{
}

} // verus!
