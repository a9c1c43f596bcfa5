//! The playback position, worked out from the last known offset and the
//! time that has passed since, without a clock of its own. Times are in
//! milliseconds; `now` is a reading of a clock that never runs backwards.

use vstd::prelude::*;

verus! {

/// What a loop remembers of the playback position.
#[derive(Debug, Clone, Copy, PartialEq, Eq, Structural)]
pub struct PlaybackPosition {
    /// The position at the last change of phase.
    pub offset: u64,
    /// When the phase last changed.
    pub reference: u64,
    pub paused: bool,
    /// Whether the file plays or is about to; until then the position is 0.
    pub ready: bool,
    /// The length of the file.
    pub duration: u64,
}

/// A change between playing and standing still.
pub enum Transition {
    Pause,
    Resume,
}

/// A change between playing and standing still, and when it happened.
pub struct TimedTransition {
    pub kind: Transition,
    pub at: u64,
}

/// The time from `reference` to `now`; none where `now` is the earlier.
pub open spec fn elapsed(reference: u64, now: u64) -> int {
    if now >= reference {
        now - reference
    } else {
        0
    }
}

/// `v`, or the largest `u64` where `v` is beyond it.
pub open spec fn capped(v: int) -> u64 {
    if v > u64::MAX {
        u64::MAX
    } else {
        v as u64
    }
}

impl PlaybackPosition {
    /// The position at `now`: 0 until the file is ready, the offset while
    /// paused, the offset and the time since the reference while playing,
    /// and never beyond the end of the file.
    pub open spec fn time_at(self, now: u64) -> int {
        if !self.ready {
            0
        } else {
            let t = if self.paused {
                self.offset as int
            } else {
                self.offset + elapsed(self.reference, now)
            };
            if t > self.duration {
                self.duration as int
            } else {
                t
            }
        }
    }

    /// The state after the engine has begun a file.
    pub open spec fn after_start_file(self) -> Self {
        PlaybackPosition { ready: false, ..self }
    }

    /// The state after playback has begun anew at `now`.
    pub open spec fn after_restart(self, paused: bool, now: u64) -> Self {
        PlaybackPosition { reference: now, ready: true, paused, ..self }
    }

    /// The state after a pause at `now`: the time played since the
    /// reference goes into the offset.
    pub open spec fn after_pause(self, now: u64) -> Self {
        PlaybackPosition {
            offset: capped(self.offset + elapsed(self.reference, now)),
            paused: true,
            ..self
        }
    }

    /// The state after playback has gone on at `now`.
    pub open spec fn after_resume(self, now: u64) -> Self {
        PlaybackPosition { reference: now, paused: false, ..self }
    }

    /// The state after a jump to `position` at `now`.
    pub open spec fn after_seek(self, position: u64, now: u64) -> Self {
        PlaybackPosition { reference: now, offset: position, ..self }
    }

    /// The state after a file of length `duration` was loaded at `now`.
    pub open spec fn after_file_loaded(self, duration: u64, now: u64) -> Self {
        PlaybackPosition { reference: now, offset: 0, duration, ..self }
    }

    /// The state after one pause or resume.
    pub open spec fn after_transition(self, t: TimedTransition) -> Self {
        match t.kind {
            Transition::Pause => self.after_pause(t.at),
            Transition::Resume => self.after_resume(t.at),
        }
    }

    /// The state after the pauses and resumes of `ts`, first to last.
    pub open spec fn after_transitions(self, ts: Seq<TimedTransition>) -> Self
        decreases ts.len(),
    {
        if ts.len() == 0 {
            self
        } else {
            self.after_transition(ts[0]).after_transitions(ts.drop_first())
        }
    }

    /// The state before any file: not ready, standing still at 0.
    pub open spec fn initial() -> Self {
        PlaybackPosition { offset: 0, reference: 0, paused: true, ready: false, duration: 0 }
    }

    /// The state before any file.
    pub fn new() -> (r: Self)
        ensures
            r == Self::initial(),
            forall|now: u64| r.time_at(now) == 0,
    {
        PlaybackPosition { offset: 0, reference: 0, paused: true, ready: false, duration: 0 }
    }

    /// The position at `now`. It reads the state and changes nothing, so
    /// asking again at the same `now` gives the same answer.
    pub fn current_time(&self, now: u64) -> (r: u64)
        ensures
            r == self.time_at(now),
            r <= self.duration,
    {
        if !self.ready {
            return 0;
        }
        let t = if self.paused {
            self.offset
        } else {
            let passed = if now >= self.reference {
                now - self.reference
            } else {
                0
            };
            self.offset.saturating_add(passed)
        };
        if t > self.duration {
            self.duration
        } else {
            t
        }
    }

    /// The engine has begun a file.
    pub fn start_file(&mut self)
        ensures
            *final(self) == old(self).after_start_file(),
    {
        self.ready = false;
    }

    /// Playback has begun anew, after a seek or at the start of the stream.
    pub fn playback_restart(&mut self, paused: bool, now: u64)
        ensures
            *final(self) == old(self).after_restart(paused, now),
    {
        self.reference = now;
        self.ready = true;
        self.paused = paused;
    }

    /// Playback was paused.
    pub fn pause(&mut self, now: u64)
        ensures
            *final(self) == old(self).after_pause(now),
    {
        let passed = if now >= self.reference {
            now - self.reference
        } else {
            0
        };
        self.offset = self.offset.saturating_add(passed);
        self.paused = true;
    }

    /// Playback goes on.
    pub fn resume(&mut self, now: u64)
        ensures
            *final(self) == old(self).after_resume(now),
    {
        self.reference = now;
        self.paused = false;
    }

    /// The position was moved to `position`.
    pub fn seek(&mut self, position: u64, now: u64)
        ensures
            *final(self) == old(self).after_seek(position, now),
    {
        self.reference = now;
        self.offset = position;
    }

    /// A file of length `duration` was loaded.
    pub fn file_loaded(&mut self, duration: u64, now: u64)
        ensures
            *final(self) == old(self).after_file_loaded(duration, now),
    {
        self.reference = now;
        self.offset = 0;
        self.duration = duration;
    }
}

/// Whether the pauses and resumes of `ts` take turns, beginning with the
/// one that fits a state that is paused or not, and come in the order of
/// their times, none before `since`.
pub open spec fn takes_turns(paused: bool, since: u64, ts: Seq<TimedTransition>) -> bool
    decreases ts.len(),
{
    if ts.len() == 0 {
        true
    } else {
        &&& ts[0].at >= since
        &&& match ts[0].kind {
            Transition::Pause => !paused,
            Transition::Resume => paused,
        }
        &&& takes_turns(ts[0].kind is Pause, ts[0].at, ts.drop_first())
    }
}

/// The time spent playing from `since` to `now`, over the pauses and
/// resumes of `ts`: the sum of the stretches between a resume, or `since`
/// where playback was going on then, and the next pause, or `now`.
pub open spec fn playing_time(paused: bool, since: u64, ts: Seq<TimedTransition>, now: u64) -> int
    decreases ts.len(),
{
    if ts.len() == 0 {
        if paused {
            0
        } else {
            now - since
        }
    } else {
        (if paused {
            0
        } else {
            ts[0].at - since
        }) + playing_time(ts[0].kind is Pause, ts[0].at, ts.drop_first(), now)
    }
}

/// The time of the last of `ts`, or `since` where there is none.
pub open spec fn last_time(since: u64, ts: Seq<TimedTransition>) -> u64 {
    if ts.len() == 0 {
        since
    } else {
        ts.last().at
    }
}

proof fn lemma_playing_time_bounds(paused: bool, since: u64, ts: Seq<TimedTransition>, now: u64)
    requires
        takes_turns(paused, since, ts),
        now >= last_time(since, ts),
    ensures
        0 <= playing_time(paused, since, ts, now) <= now - since,
    decreases ts.len(),
{
    if ts.len() > 0 {
        let rest = ts.drop_first();
        if rest.len() > 0 {
            assert(rest.last() == ts.last());
        }
        lemma_playing_time_bounds(ts[0].kind is Pause, ts[0].at, rest, now);
    }
}

/// The position after a run of pauses and resumes that take turns is the
/// offset before them and the time spent playing since, held to the
/// length of the file.
///
/// `since` is the reference of the state where it plays; where it is
/// paused, any time not after the first of `ts`.
pub proof fn lemma_position_is_offset_and_playing_time(
    state: PlaybackPosition,
    since: u64,
    ts: Seq<TimedTransition>,
    now: u64,
)
    requires
        state.ready,
        !state.paused ==> state.reference == since,
        takes_turns(state.paused, since, ts),
        now >= last_time(since, ts),
        state.offset + playing_time(state.paused, since, ts, now) <= u64::MAX,
    ensures
        state.after_transitions(ts).time_at(now) == ({
            let played = state.offset + playing_time(state.paused, since, ts, now);
            if played > state.duration {
                state.duration as int
            } else {
                played
            }
        }),
    decreases ts.len(),
{
    if ts.len() > 0 {
        let rest = ts.drop_first();
        let next = state.after_transition(ts[0]);
        if rest.len() > 0 {
            assert(rest.last() == ts.last());
        }
        lemma_playing_time_bounds(state.paused, since, ts, now);
        lemma_playing_time_bounds(ts[0].kind is Pause, ts[0].at, rest, now);
        lemma_position_is_offset_and_playing_time(next, ts[0].at, rest, now);
    }
}

} // verus!
