use vstd::prelude::*;
use crate::MAX_CLOCK_SECONDS;
use crate::MAX_TARGET_MINUTES;
use crate::clock::now_seconds;

verus! {

/// Whether a timer is stopped, counting, or suspended.
#[derive(Clone, Copy, Debug, PartialEq, Eq, Structural)]
pub enum TimerState {
    Idle,
    Running,
    Paused,
}

/// One countdown/count-up clock.  Elapsed time is accumulated across run
/// intervals; `target_duration` (seconds) is what completion is measured
/// against.  All instants are seconds since the Unix epoch.
#[derive(Clone, Copy, Debug, PartialEq, Eq, Structural)]
pub struct Timer {
    pub state: TimerState,
    pub started_at: Option<i64>,
    pub accumulated_time: i64,
    pub target_duration: i64,
}

/// Clamps an accumulated-seconds count into the range a well-formed timer
/// may hold.
pub open spec fn cap_accumulated(x: int) -> i64 {
    if x > MAX_CLOCK_SECONDS {
        MAX_CLOCK_SECONDS
    } else if x < 0 {
        0
    } else {
        x as i64
    }
}

impl Timer {
    /// Well-formedness: accumulated time is a bounded non-negative count of
    /// seconds, the start instant is recorded exactly while running, and the
    /// target fits the clock range.
    pub open spec fn wf(self) -> bool {
        &&& 0 <= self.accumulated_time <= MAX_CLOCK_SECONDS
        &&& (self.state is Running <==> self.started_at is Some)
        &&& match self.started_at {
            Some(t) => 0 <= t <= MAX_CLOCK_SECONDS,
            None => true,
        }
        &&& -MAX_CLOCK_SECONDS <= self.target_duration <= MAX_CLOCK_SECONDS
    }

    /// Seconds of active running time as of instant `now`: the accumulated
    /// total plus, while running, the wall-clock span since the last start.
    /// A clock reading earlier than the recorded start contributes nothing.
    pub open spec fn spec_elapsed(self, now: i64) -> int {
        match (self.state, self.started_at) {
            (TimerState::Running, Some(started)) => {
                self.accumulated_time + if now >= started { now - started } else { 0int }
            },
            _ => self.accumulated_time as int,
        }
    }

    /// The timer after a toggle at instant `now`: Idle and Paused start
    /// running from `now`; Running pauses, folding the open interval into
    /// `accumulated_time`.
    pub open spec fn spec_toggled(self, now: i64) -> Timer {
        match self.state {
            TimerState::Idle => (Timer {
                state: TimerState::Running,
                started_at: Some(now),
                ..self
            }),
            TimerState::Running => (Timer {
                state: TimerState::Paused,
                started_at: None,
                accumulated_time: cap_accumulated(self.spec_elapsed(now)),
                ..self
            }),
            TimerState::Paused => (Timer {
                state: TimerState::Running,
                started_at: Some(now),
                ..self
            }),
        }
    }

    /// The timer after a reset: Idle with nothing accumulated; the target is
    /// kept.
    pub open spec fn spec_reset(self) -> Timer {
        Timer {
            state: TimerState::Idle,
            started_at: None,
            accumulated_time: 0,
            ..self
        }
    }

    pub open spec fn spec_is_complete(self, now: i64) -> bool {
        self.spec_elapsed(now) >= self.target_duration
    }

    /// Seconds still to run: never negative.
    pub open spec fn spec_remaining(self, now: i64) -> int {
        if self.target_duration - self.spec_elapsed(now) >= 0 {
            self.target_duration - self.spec_elapsed(now)
        } else {
            0int
        }
    }

    /// Progress toward the target in thousandths, clamped to [0, 1000];
    /// zero whenever the target is not positive.
    pub open spec fn spec_progress_permille(self, now: i64) -> int {
        if self.target_duration <= 0 {
            0int
        } else if self.spec_elapsed(now) * 1000 / (self.target_duration as int) > 1000 {
            1000int
        } else {
            self.spec_elapsed(now) * 1000 / (self.target_duration as int)
        }
    }

    /// A fresh timer: Idle, nothing accumulated, target of `minutes` minutes.
    pub fn new(minutes: i64) -> (t: Timer)
        requires
            0 <= minutes <= MAX_TARGET_MINUTES,
        ensures
            t == (Timer {
                state: TimerState::Idle,
                started_at: None,
                accumulated_time: 0,
                target_duration: (minutes * 60) as i64,
            }),
            t.wf(),
    {
        Timer {
            state: TimerState::Idle,
            started_at: None,
            accumulated_time: 0,
            target_duration: minutes * 60,
        }
    }

    /// Toggle at an explicit instant.
    pub fn toggle_at(&mut self, now: i64)
        requires
            old(self).wf(),
            0 <= now <= MAX_CLOCK_SECONDS,
        ensures
            *final(self) == old(self).spec_toggled(now),
            final(self).wf(),
    {
        match self.state {
            TimerState::Idle => {
                self.state = TimerState::Running;
                self.started_at = Some(now);
            },
            TimerState::Running => {
                self.state = TimerState::Paused;
                if let Some(started) = self.started_at {
                    if now >= started {
                        let delta: i64 = now - started;
                        if self.accumulated_time <= MAX_CLOCK_SECONDS - delta {
                            self.accumulated_time = self.accumulated_time + delta;
                        } else {
                            self.accumulated_time = MAX_CLOCK_SECONDS;
                        }
                    }
                }
                self.started_at = None;
            },
            TimerState::Paused => {
                self.state = TimerState::Running;
                self.started_at = Some(now);
            },
        }
    }

    /// Toggle at the current wall-clock instant.
    pub fn toggle(&mut self)
        requires
            old(self).wf(),
        ensures
            final(self).wf(),
            exists|now: i64|
                0 <= now <= MAX_CLOCK_SECONDS && *final(self) == old(self).spec_toggled(now),
    {
        let now = clamp_clock(now_seconds());
        self.toggle_at(now);
        assert(*self == old(self).spec_toggled(now));
    }

    /// Force the timer back to Idle with nothing accumulated.
    pub fn reset(&mut self)
        ensures
            *final(self) == old(self).spec_reset(),
            old(self).wf() ==> final(self).wf(),
    {
        self.state = TimerState::Idle;
        self.started_at = None;
        self.accumulated_time = 0;
    }

    /// Elapsed seconds as of an explicit instant.
    pub fn get_elapsed_at(&self, now: i64) -> (r: i64)
        requires
            self.wf(),
            0 <= now <= MAX_CLOCK_SECONDS,
        ensures
            r == self.spec_elapsed(now),
            0 <= r <= 2 * MAX_CLOCK_SECONDS,
    {
        match (self.state, self.started_at) {
            (TimerState::Running, Some(started)) => {
                if now >= started {
                    self.accumulated_time + (now - started)
                } else {
                    self.accumulated_time
                }
            },
            _ => self.accumulated_time,
        }
    }

    /// Elapsed seconds as of the current wall-clock instant.
    pub fn get_elapsed(&self) -> (r: i64)
        requires
            self.wf(),
        ensures
            0 <= r <= 2 * MAX_CLOCK_SECONDS,
            exists|now: i64| 0 <= now <= MAX_CLOCK_SECONDS && r == self.spec_elapsed(now),
            !(self.state is Running) ==> r == self.accumulated_time,
    {
        let now = clamp_clock(now_seconds());
        let r = self.get_elapsed_at(now);
        assert(r == self.spec_elapsed(now));
        r
    }

    /// Whether the elapsed time has reached the target, at an explicit
    /// instant.
    pub fn is_complete_at(&self, now: i64) -> (r: bool)
        requires
            self.wf(),
            0 <= now <= MAX_CLOCK_SECONDS,
        ensures
            r == self.spec_is_complete(now),
    {
        self.get_elapsed_at(now) >= self.target_duration
    }

    /// Whether the elapsed time has reached the target, now.
    pub fn is_complete(&self) -> (r: bool)
        requires
            self.wf(),
        ensures
            exists|now: i64| 0 <= now <= MAX_CLOCK_SECONDS && r == self.spec_is_complete(now),
    {
        let now = clamp_clock(now_seconds());
        let r = self.is_complete_at(now);
        assert(r == self.spec_is_complete(now));
        r
    }

    /// Seconds still to run at an explicit instant, floored at zero.
    pub fn get_remaining_at(&self, now: i64) -> (r: i64)
        requires
            self.wf(),
            0 <= now <= MAX_CLOCK_SECONDS,
        ensures
            r == self.spec_remaining(now),
            r >= 0,
    {
        let elapsed = self.get_elapsed_at(now);
        if self.target_duration >= 0 && elapsed < self.target_duration {
            self.target_duration - elapsed
        } else {
            0
        }
    }

    /// Seconds still to run now, floored at zero.
    pub fn get_remaining(&self) -> (r: i64)
        requires
            self.wf(),
        ensures
            r >= 0,
            exists|now: i64| 0 <= now <= MAX_CLOCK_SECONDS && r == self.spec_remaining(now),
    {
        let now = clamp_clock(now_seconds());
        let r = self.get_remaining_at(now);
        assert(r == self.spec_remaining(now));
        r
    }

    /// Progress toward the target in thousandths, at an explicit instant.
    pub fn get_progress_permille_at(&self, now: i64) -> (r: i64)
        requires
            self.wf(),
            0 <= now <= MAX_CLOCK_SECONDS,
        ensures
            r == self.spec_progress_permille(now),
            0 <= r <= 1000,
    {
        if self.target_duration <= 0 {
            0
        } else {
            let elapsed = self.get_elapsed_at(now);
            let scaled = elapsed * 1000 / self.target_duration;
            if scaled > 1000 {
                1000
            } else {
                scaled
            }
        }
    }

    /// Progress toward the target in thousandths, now.
    pub fn get_progress_permille(&self) -> (r: i64)
        requires
            self.wf(),
        ensures
            0 <= r <= 1000,
            self.target_duration <= 0 ==> r == 0,
            exists|now: i64| 0 <= now <= MAX_CLOCK_SECONDS && r == self.spec_progress_permille(now),
    {
        let now = clamp_clock(now_seconds());
        let r = self.get_progress_permille_at(now);
        assert(r == self.spec_progress_permille(now));
        r
    }
}

/// Clamps a raw clock reading into the range the timer arithmetic accepts.
pub fn clamp_clock(t: i64) -> (r: i64)
    ensures
        0 <= r <= MAX_CLOCK_SECONDS,
        0 <= t <= MAX_CLOCK_SECONDS ==> r == t,
{
    if t < 0 {
        0
    } else if t > MAX_CLOCK_SECONDS {
        MAX_CLOCK_SECONDS
    } else {
        t
    }
}

/// Elapsed monotonicity: while a timer runs untouched, elapsed time grows
/// exactly with the wall clock.  For samples `t1 <= t2` taken no earlier
/// than the recorded start, `elapsed(t2) - elapsed(t1) == t2 - t1`.
pub proof fn lemma_elapsed_monotonic(t: Timer, t1: i64, t2: i64)
    requires
        t.wf(),
        t.state is Running,
        t.started_at matches Some(s) && s <= t1,
        t1 <= t2,
    ensures
        t.spec_elapsed(t2) - t.spec_elapsed(t1) == t2 - t1,
        t.spec_elapsed(t2) >= t.spec_elapsed(t1),
{
}

/// Pausing and immediately resuming preserves elapsed time: a
/// Running -> Paused -> Running double toggle at one instant leaves
/// `elapsed` at that instant unchanged, as long as the elapsed total is
/// within the range a timer can hold.
pub proof fn lemma_pause_preserves_elapsed(t: Timer, now: i64)
    requires
        t.wf(),
        t.state is Running,
        0 <= now <= MAX_CLOCK_SECONDS,
        t.spec_elapsed(now) <= MAX_CLOCK_SECONDS,
    ensures
        t.spec_toggled(now).spec_toggled(now).spec_elapsed(now) == t.spec_elapsed(now),
{
}

/// Reset idempotence: a reset always yields an Idle timer with nothing
/// accumulated, and resetting twice is the same as resetting once.
pub proof fn lemma_reset_idempotent(t: Timer)
    ensures
        t.spec_reset().state is Idle,
        t.spec_reset().accumulated_time == 0,
        t.spec_reset().started_at is None,
        t.spec_reset().target_duration == t.target_duration,
        t.spec_reset().spec_reset() == t.spec_reset(),
{
}

/// Progress clamp: progress lies in [0, 1000] thousandths for a positive
/// target and is exactly zero for a non-positive one.
pub proof fn lemma_progress_clamp(t: Timer, now: i64)
    requires
        t.wf(),
        0 <= now <= MAX_CLOCK_SECONDS,
    ensures
        0 <= t.spec_progress_permille(now) <= 1000,
        t.target_duration <= 0 ==> t.spec_progress_permille(now) == 0,
{
}

} // verus!
