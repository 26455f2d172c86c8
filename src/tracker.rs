use vstd::prelude::*;

verus! {

/// Elapsed time within the current track, in milliseconds of a monotonic clock.
///
/// Time accumulated over finished runs is kept in `accumulated_ms`; while a run
/// is in progress, `run_start` holds the clock reading at which it began.
#[derive(Clone, Copy, Debug, PartialEq, Eq)]
pub struct ElapsedTracker {
    pub accumulated_ms: u64,
    pub run_start: Option<u64>,
}

/// Milliseconds from `start` to `now`; a clock reading before `start` counts as no time.
pub open spec fn span(start: u64, now: u64) -> nat {
    if now >= start {
        (now - start) as nat
    } else {
        0
    }
}

/// `x`, or `u64::MAX` where `x` does not fit.
pub open spec fn cap_u64(x: nat) -> u64 {
    if x <= u64::MAX {
        x as u64
    } else {
        u64::MAX
    }
}

impl ElapsedTracker {
    pub open spec fn running(self) -> bool {
        self.run_start is Some
    }

    /// Elapsed time at clock reading `now`, as an unbounded number.
    pub open spec fn total_at(self, now: u64) -> nat {
        match self.run_start {
            Some(start) => (self.accumulated_ms + span(start, now)) as nat,
            None => self.accumulated_ms as nat,
        }
    }

    /// Elapsed time at `now` as reported (saturating at `u64::MAX`).
    pub open spec fn elapsed_at(self, now: u64) -> u64 {
        cap_u64(self.total_at(now))
    }

    /// The tracker after a play event at `now`.
    pub open spec fn played(self, now: u64) -> ElapsedTracker {
        match self.run_start {
            Some(_) => self,
            None => ElapsedTracker { accumulated_ms: self.accumulated_ms, run_start: Some(now) },
        }
    }

    /// The tracker after a pause event at `now`.
    pub open spec fn paused(self, now: u64) -> ElapsedTracker {
        ElapsedTracker { accumulated_ms: self.elapsed_at(now), run_start: None }
    }

    /// The tracker after switching to a new track at `now`.
    pub open spec fn restarted(now: u64, start_playing: bool) -> ElapsedTracker {
        ElapsedTracker {
            accumulated_ms: 0,
            run_start: if start_playing { Some(now) } else { None },
        }
    }

    /// A stopped tracker at zero.
    pub fn new() -> (r: ElapsedTracker)
        ensures
            r == (ElapsedTracker { accumulated_ms: 0, run_start: None }),
    {
        ElapsedTracker { accumulated_ms: 0, run_start: None }
    }

    pub fn is_running(&self) -> (r: bool)
        ensures
            r == self.running(),
    {
        self.run_start.is_some()
    }

    /// Starts a run at `now`, unless one is already in progress.
    pub fn on_play(&mut self, now: u64)
        ensures
            *final(self) == old(self).played(now),
    {
        if self.run_start.is_none() {
            self.run_start = Some(now);
        }
    }

    /// Ends the run in progress, adding its length to the accumulated time.
    pub fn on_pause(&mut self, now: u64)
        ensures
            *final(self) == old(self).paused(now),
    {
        let e = self.elapsed(now);
        self.accumulated_ms = e;
        self.run_start = None;
    }

    /// Resets to zero for a new track, starting a run at `now` when `start_playing`.
    pub fn on_track_change(&mut self, now: u64, start_playing: bool)
        ensures
            *final(self) == ElapsedTracker::restarted(now, start_playing),
    {
        self.accumulated_ms = 0;
        self.run_start = if start_playing { Some(now) } else { None };
    }

    /// Time elapsed in the current track at clock reading `now`.
    pub fn elapsed(&self, now: u64) -> (r: u64)
        ensures
            r == self.elapsed_at(now),
    {
        match self.run_start {
            Some(start) => {
                let delta: u64 = if now >= start { now - start } else { 0 };
                self.accumulated_ms.saturating_add(delta)
            },
            None => self.accumulated_ms,
        }
    }
}

/// Pausing at `t_pause` and resuming at any later `t_resume` neither loses nor
/// gains time: the elapsed time right after the resume is the elapsed time right
/// before the pause, and the pause itself does not change it.
pub proof fn lemma_pause_resume_keeps_elapsed(t: ElapsedTracker, t_pause: u64, t_resume: u64)
    requires
        t.running(),
        t_pause <= t_resume,
    ensures
        t.paused(t_pause).elapsed_at(t_pause) == t.elapsed_at(t_pause),
        t.paused(t_pause).played(t_resume).elapsed_at(t_resume) == t.elapsed_at(t_pause),
        t.paused(t_pause).played(t_resume).running(),
{
}

/// While a run is in progress, elapsed time never goes backward.
pub proof fn lemma_elapsed_monotonic(t: ElapsedTracker, t1: u64, t2: u64)
    requires
        t1 <= t2,
    ensures
        t.elapsed_at(t1) <= t.elapsed_at(t2),
{
}

} // verus!
