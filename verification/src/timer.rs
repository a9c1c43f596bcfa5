//! Deadline timers: pause, or quit, once a number of minutes has passed.
//! At most one of them is pending at a time. Times are in milliseconds.

use vstd::prelude::*;

verus! {

/// What a deadline timer does when its time has come.
#[derive(Debug, Clone, Copy, PartialEq, Eq, Structural)]
pub enum TimerKind {
    PauseAfter,
    QuitAfter,
}

/// A pending countdown.
#[derive(Debug, Clone, Copy, PartialEq, Eq, Structural)]
pub struct DeadlineTimer {
    pub kind: TimerKind,
    /// When the timer was set.
    pub set_at: u64,
    /// How long after that it fires.
    pub total_duration: u64,
}

/// What a timer reports when it fires.
#[derive(Debug, Clone, Copy, PartialEq, Eq, Structural)]
pub enum TimerFired {
    PauseDeadlineReached,
    QuitDeadlineReached,
}

/// The timers of one loop: the one that is pending, if any.
#[derive(Debug, Clone, Copy, PartialEq, Eq, Structural)]
pub struct TimerSet {
    pub active: Option<DeadlineTimer>,
}

/// The milliseconds in one minute.
pub const MILLIS_PER_MINUTE: u64 = 60_000;

/// The milliseconds in `minutes` minutes, or the largest `u64` where they
/// are more.
pub open spec fn minutes_as_millis(minutes: u64) -> u64 {
    if minutes * MILLIS_PER_MINUTE > u64::MAX {
        u64::MAX
    } else {
        (minutes * MILLIS_PER_MINUTE) as u64
    }
}

impl DeadlineTimer {
    /// The time that has passed at `now` since the timer was set.
    pub open spec fn elapsed_at(self, now: u64) -> int {
        if now >= self.set_at {
            now - self.set_at
        } else {
            0
        }
    }

    /// The instant at which the timer fires.
    pub open spec fn fire_time(self) -> int {
        self.set_at + self.total_duration
    }

    /// Whether the time of the timer has come at `now`: as much time has
    /// passed since it was set as it was set for. For a `now` that is not
    /// before the setting that is to say that `now` has reached
    /// [`Self::fire_time`].
    pub open spec fn due_at(self, now: u64) -> bool {
        self.elapsed_at(now) >= self.total_duration
    }

    /// The time left at `now`; none once the timer is due.
    pub open spec fn remaining_at(self, now: u64) -> int {
        if self.elapsed_at(now) >= self.total_duration {
            0
        } else {
            self.total_duration - self.elapsed_at(now)
        }
    }

    /// What the timer reports when it fires.
    pub open spec fn report(self) -> TimerFired {
        match self.kind {
            TimerKind::PauseAfter => TimerFired::PauseDeadlineReached,
            TimerKind::QuitAfter => TimerFired::QuitDeadlineReached,
        }
    }

    /// The time left at `now`.
    pub fn remaining(&self, now: u64) -> (r: u64)
        ensures
            r == self.remaining_at(now),
            r == 0 <==> self.due_at(now),
    {
        let passed = if now >= self.set_at {
            now - self.set_at
        } else {
            0
        };
        if passed >= self.total_duration {
            0
        } else {
            self.total_duration - passed
        }
    }
}

impl TimerSet {
    /// The set after a timer of `kind` was set for `minutes` minutes at
    /// `now`: that timer is pending and no other.
    pub open spec fn after_set(self, kind: TimerKind, minutes: u64, now: u64) -> Self {
        TimerSet {
            active: Some(
                DeadlineTimer { kind, set_at: now, total_duration: minutes_as_millis(minutes) },
            ),
        }
    }

    /// What the set reports at `now`: what its timer reports where that is
    /// due.
    pub open spec fn fires_at(self, now: u64) -> Option<TimerFired> {
        match self.active {
            Some(t) => if t.due_at(now) {
                Some(t.report())
            } else {
                None
            },
            None => None,
        }
    }

    /// The set after it was asked at `now`: a timer that fired is gone.
    pub open spec fn after_poll(self, now: u64) -> Self {
        if self.fires_at(now) is Some {
            TimerSet { active: None }
        } else {
            self
        }
    }

    /// A set with no timer pending.
    pub fn new() -> (r: Self)
        ensures
            r.active is None,
    {
        TimerSet { active: None }
    }

    fn set(&mut self, kind: TimerKind, minutes: u64, now: u64)
        ensures
            *final(self) == old(self).after_set(kind, minutes, now),
    {
        let total = match minutes.checked_mul(MILLIS_PER_MINUTE) {
            Some(t) => t,
            None => u64::MAX,
        };
        self.active = Some(DeadlineTimer { kind, set_at: now, total_duration: total });
    }

    /// Sets the timer that pauses playback after `minutes` minutes. A
    /// timer that was pending is dropped.
    pub fn set_pause_after(&mut self, minutes: u64, now: u64)
        ensures
            *final(self) == old(self).after_set(TimerKind::PauseAfter, minutes, now),
    {
        self.set(TimerKind::PauseAfter, minutes, now);
    }

    /// Sets the timer that quits after `minutes` minutes. A timer that was
    /// pending is dropped.
    pub fn set_quit_after(&mut self, minutes: u64, now: u64)
        ensures
            *final(self) == old(self).after_set(TimerKind::QuitAfter, minutes, now),
    {
        self.set(TimerKind::QuitAfter, minutes, now);
    }

    /// Asks whether the pending timer is due at `now`. One that is due
    /// fires: it is reported and dropped, so it fires once.
    pub fn poll(&mut self, now: u64) -> (r: Option<TimerFired>)
        ensures
            r == old(self).fires_at(now),
            *final(self) == old(self).after_poll(now),
    {
        match self.active {
            Some(t) => {
                if t.remaining(now) == 0 {
                    self.active = None;
                    Some(
                        match t.kind {
                            TimerKind::PauseAfter => TimerFired::PauseDeadlineReached,
                            TimerKind::QuitAfter => TimerFired::QuitDeadlineReached,
                        },
                    )
                } else {
                    None
                }
            },
            None => None,
        }
    }

    /// The time left on the pending timer at `now`, with its kind.
    pub fn remaining(&self, now: u64) -> (r: Option<(TimerKind, u64)>)
        ensures
            r == match self.active {
                Some(t) => Some((t.kind, t.remaining_at(now) as u64)),
                None => None,
            },
    {
        match self.active {
            Some(t) => Some((t.kind, t.remaining(now))),
            None => None,
        }
    }
}

/// On a clock that has not run backwards since the timer was set, the
/// timer is due from the instant at which it fires, and until then the
/// time left is the time to that instant.
pub proof fn lemma_due_from_fire_time(timer: DeadlineTimer, now: u64)
    requires
        now >= timer.set_at,
    ensures
        timer.due_at(now) <==> now >= timer.fire_time(),
        !timer.due_at(now) ==> timer.remaining_at(now) == timer.fire_time() - now,
{
}

/// Setting one timer and then another leaves the second pending and no
/// other, whatever was pending before; once due it reports its own kind,
/// and having fired it is gone.
pub proof fn lemma_last_timer_set_wins(
    timers: TimerSet,
    first: TimerKind,
    first_minutes: u64,
    first_now: u64,
    second: TimerKind,
    second_minutes: u64,
    second_now: u64,
    now: u64,
)
    ensures
        ({
            let both = timers.after_set(first, first_minutes, first_now).after_set(
                second,
                second_minutes,
                second_now,
            );
            &&& both.active matches Some(t) && t.kind == second
            &&& both == timers.after_set(second, second_minutes, second_now)
            &&& both.fires_at(now) is Some ==> both.fires_at(now) == Some(
                match second {
                    TimerKind::PauseAfter => TimerFired::PauseDeadlineReached,
                    TimerKind::QuitAfter => TimerFired::QuitDeadlineReached,
                },
            )
            &&& both.fires_at(now) is Some ==> both.after_poll(now).active is None
            &&& now >= second_now + minutes_as_millis(second_minutes) ==> both.fires_at(now) is Some
        }),
{
}

} // verus!
