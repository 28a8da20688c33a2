//! A countdown that runs once: it counts elapsed time up to its duration,
//! reports the step on which it got there, and then rests until it is reset.

use vstd::prelude::*;

verus! {

/// Times are in nanoseconds.
#[derive(Clone, Copy, Debug, PartialEq, Eq, Structural)]
pub struct Timer {
    pub duration: u64,
    pub elapsed: u64,
    /// The duration has been reached since the last reset.
    pub finished: bool,
    /// The duration was reached on the latest step.
    pub just_finished: bool,
}

impl Timer {
    /// The elapsed time never passes the duration, equals it once the timer
    /// has finished, and "just finished" implies "finished".
    pub open spec fn wf(self) -> bool {
        &&& self.elapsed <= self.duration
        &&& self.finished ==> self.elapsed == self.duration
        &&& self.just_finished ==> self.finished
    }

    /// A timer at the start of its countdown.
    pub open spec fn armed(duration: u64) -> Timer {
        Timer { duration, elapsed: 0, finished: false, just_finished: false }
    }

    /// The timer after `delta` more nanoseconds.
    pub open spec fn ticked(self, delta: u64) -> Timer {
        if self.finished {
            Timer { just_finished: false, ..self }
        } else if self.elapsed + delta >= self.duration {
            Timer { elapsed: self.duration, finished: true, just_finished: true, ..self }
        } else {
            Timer {
                elapsed: (self.elapsed + delta) as u64,
                finished: false,
                just_finished: false,
                ..self
            }
        }
    }

    /// The timer back at the start of its countdown.
    pub open spec fn restarted(self) -> Timer {
        Timer::armed(self.duration)
    }

    /// A timer that will finish once `duration` nanoseconds have elapsed.
    pub fn new(duration: u64) -> (t: Timer)
        ensures
            t == Timer::armed(duration),
            t.wf(),
    {
        Timer { duration, elapsed: 0, finished: false, just_finished: false }
    }

    /// Advances the timer by `delta` nanoseconds.
    pub fn tick(&mut self, delta: u64)
        ensures
            *final(self) == old(self).ticked(delta),
            old(self).wf() ==> final(self).wf(),
            final(self).just_finished <==> !old(self).finished && old(self).elapsed + delta
                >= old(self).duration,
    {
        if self.finished {
            self.just_finished = false;
        } else if self.elapsed >= self.duration || delta >= self.duration - self.elapsed {
            self.elapsed = self.duration;
            self.finished = true;
            self.just_finished = true;
        } else {
            self.elapsed = self.elapsed + delta;
            self.just_finished = false;
        }
    }

    /// Starts the countdown again from zero.
    pub fn reset(&mut self)
        ensures
            *final(self) == old(self).restarted(),
            final(self).wf(),
    {
        self.elapsed = 0;
        self.finished = false;
        self.just_finished = false;
    }
}

} // verus!
