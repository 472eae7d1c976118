use kiomq::timers::timer::{Timer, TimerAction, TimerState};

/// A timer on a clock of its own: ticks fall on the multiples of the interval,
/// the first one at zero.
struct Bench {
    timer: Timer,
    action: TimerAction,
    next_tick: u64,
    calls: u64,
}

impl Bench {
    fn start(timer: Timer) -> Bench {
        let action = timer.first_action();
        Bench {
            timer,
            action,
            next_tick: 0,
            calls: 0,
        }
    }

    /// Does what is due before `now`.
    fn until(&mut self, now: u64) {
        loop {
            match self.action {
                TimerAction::CallBack => {
                    self.calls += 1;
                    self.action = TimerAction::Tick;
                }
                TimerAction::Tick => {
                    if self.next_tick >= now {
                        return;
                    }
                    self.next_tick += self.timer.interval_ms;
                    self.action = self.timer.next_action();
                }
                TimerAction::AwaitResume | TimerAction::End => return,
            }
        }
    }

    fn resume(&mut self) {
        if self.timer.resume() && self.action == TimerAction::AwaitResume {
            self.action = self.timer.woken(false);
        }
    }
}

#[test]
fn runs_and_stops() {
    let mut timer = Timer::new(100);
    assert!(timer.run());
    assert!(timer.is_running());
    let mut bench = Bench::start(timer);
    bench.until(300);
    assert_eq!(bench.calls, 3);
    bench.timer.stop();
    assert!(!bench.timer.is_running());
    bench.until(500);
    assert_eq!(bench.action, TimerAction::End);
    assert_eq!(bench.calls, 3);
    assert!(!bench.timer.run());
}

#[test]
fn skips_first_ticks() {
    let mut timer = Timer::new(100);
    assert!(timer.should_skip_first_tick());
    assert!(!timer.should_skip_first_tick());
    assert!(timer.run());
    assert!(timer.skip_first_tick);
    let mut bench = Bench::start(timer);
    bench.until(100);
    bench.timer.stop();
    assert!(!bench.timer.is_running());
    assert_eq!(bench.calls, 2);
}

#[test]
fn can_pause_and_resume() {
    let mut timer = Timer::new(100);
    let _ = timer.should_skip_first_tick();
    assert!(timer.run());
    assert!(timer.skip_first_tick);
    let mut bench = Bench::start(timer);
    bench.until(101);
    assert_eq!(bench.calls, 3);
    bench.timer.pause();
    assert_eq!(bench.timer.state, TimerState::Paused);
    bench.until(201);
    assert_eq!(bench.calls, 3);
    bench.resume();
    bench.until(251);
    assert!(bench.timer.is_running());
    assert_eq!(bench.calls, 4);
}

#[test]
fn stops_when_paused() {
    let mut timer = Timer::new(100);
    assert!(timer.run());
    let mut bench = Bench::start(timer);
    bench.until(100);
    bench.timer.pause();
    bench.until(200);
    assert_eq!(bench.action, TimerAction::AwaitResume);
    bench.timer.stop();
    bench.action = bench.timer.woken(true);
    assert_eq!(bench.action, TimerAction::End);
    assert_eq!(bench.timer.state, TimerState::Stopped);
}

#[test]
fn pausing_what_does_not_run_changes_nothing() {
    let mut timer = Timer::new(10);
    timer.pause();
    assert_eq!(timer, Timer::new(10));
    assert!(!timer.resume());
    assert!(timer.run());
    assert!(!timer.run());
}
