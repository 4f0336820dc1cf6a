use vstd::prelude::*;

verus! {

/// Longest sleep between two polls of the cancellation predicate, in
/// milliseconds.
pub const POLL_INTERVAL_MS: u64 = 50;

/// What an animation does next.
#[derive(Debug, Clone, Copy, PartialEq, Eq, Structural)]
pub enum Tick {
    /// Cancellation was requested: stop now and report it upward.
    Cancelled,
    /// Draw frame `index`, then sleep `sleep_ms` before the next poll.
    Frame { index: usize, sleep_ms: u64 },
    /// The target duration has passed.
    Finished,
}

/// The timing core of a cancellable spinner or progress effect: it is asked
/// for the next tick with the result of a poll of the cancellation predicate.
#[derive(Debug, Clone, Copy, PartialEq, Eq, Structural)]
pub struct Animation {
    pub duration_ms: u64,
    pub elapsed_ms: u64,
    pub frame: usize,
    pub frames: usize,
}

/// The sleep before the next poll: a poll interval, or what is left of the
/// duration if that is shorter.
pub open spec fn sleep_for(a: Animation) -> u64 {
    if a.duration_ms - a.elapsed_ms < POLL_INTERVAL_MS {
        (a.duration_ms - a.elapsed_ms) as u64
    } else {
        POLL_INTERVAL_MS
    }
}

/// The frame after the current one, cycling back to the first.
pub open spec fn next_frame(a: Animation) -> usize {
    if a.frame + 1 < a.frames {
        (a.frame + 1) as usize
    } else {
        0
    }
}

impl Animation {
    /// Elapsed time never passes the duration, and there is a frame to draw.
    pub open spec fn wf(&self) -> bool {
        self.elapsed_ms <= self.duration_ms && self.frame < self.frames
    }

    /// An animation of `duration_ms` milliseconds over `frames` frames.
    pub fn new(duration_ms: u64, frames: usize) -> (r: Animation)
        requires
            frames > 0,
        ensures
            r.wf(),
            r == (Animation { duration_ms, elapsed_ms: 0, frame: 0, frames }),
    {
        Animation { duration_ms, elapsed_ms: 0, frame: 0, frames }
    }

    /// The next tick, given whether cancellation was requested at this poll.
    pub fn step(&mut self, cancel_requested: bool) -> (r: Tick)
        requires
            old(self).wf(),
        ensures
            final(self).wf(),
            final(self).duration_ms == old(self).duration_ms,
            final(self).frames == old(self).frames,
            cancel_requested ==> r == Tick::Cancelled && *final(self) == *old(self),
            !cancel_requested && old(self).elapsed_ms == old(self).duration_ms ==> r
                == Tick::Finished && *final(self) == *old(self),
            !cancel_requested && old(self).elapsed_ms < old(self).duration_ms ==> {
                &&& r == (Tick::Frame { index: old(self).frame, sleep_ms: sleep_for(*old(self)) })
                &&& 0 < sleep_for(*old(self)) <= POLL_INTERVAL_MS
                &&& final(self).elapsed_ms == old(self).elapsed_ms + sleep_for(*old(self))
                &&& final(self).frame == next_frame(*old(self))
            },
    {
        if cancel_requested {
            return Tick::Cancelled;
        }
        if self.elapsed_ms >= self.duration_ms {
            return Tick::Finished;
        }
        let left = self.duration_ms - self.elapsed_ms;
        let sleep_ms = if left < POLL_INTERVAL_MS {
            left
        } else {
            POLL_INTERVAL_MS
        };
        let index = self.frame;
        self.elapsed_ms = self.elapsed_ms + sleep_ms;
        self.frame = if self.frame + 1 < self.frames {
            self.frame + 1
        } else {
            0
        };
        Tick::Frame { index, sleep_ms }
    }
}

/// Cancellation is seen at the very next poll, and polls are never more than
/// a poll interval (50 ms) apart: from any state, a cancelled poll stops the
/// animation, and a frame sleeps at most the interval before polling again.
pub proof fn lemma_cancel_latency(a: Animation)
    requires
        a.wf(),
        a.elapsed_ms < a.duration_ms,
    ensures
        0 < sleep_for(a) <= POLL_INTERVAL_MS < 100,
        sleep_for(a) + a.elapsed_ms <= a.duration_ms,
{
}

} // verus!
