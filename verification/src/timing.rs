//! Stopwatches pacing the loop: one limits the capture rate, one paces the
//! LED refresh rate and supplies the smoothing filter's time delta. Time is
//! carried in nanoseconds; a clock that appears to move backward reads as
//! zero elapsed time, never as a negative one.

use vstd::prelude::*;

verus! {

/// Relies on clock_ticks::precise_time_ns: the current reading of a
/// high-resolution counter, in nanoseconds since an unspecified epoch.
/// Nothing is promised of the value; every caller must cope with any
/// reading, including one smaller than an earlier one.
#[verifier::external_body]
fn precise_time_ns() -> u64 {
    clock_ticks::precise_time_ns()
}

/// Nanoseconds from `before` to `now`, and zero when the clock appears to
/// have moved backward.
pub open spec fn elapsed_ns(before: u64, now: u64) -> u64 {
    if now >= before {
        (now - before) as u64
    } else {
        0
    }
}

/// A timer to track time passed between refreshes. Can for example be used
/// to limit frame rate.
pub struct FrameTimer {
    /// The clock reading the timer measures from.
    pub before: u64,
    /// How long the previous frame lasted, in nanoseconds.
    pub last_frame_dt: u64,
}

impl FrameTimer {
    /// A fresh timer, measuring from the clock reading at the call.
    pub fn new() -> (t: FrameTimer)
        ensures
            t.last_frame_dt == 0,
    {
        FrameTimer { before: precise_time_ns(), last_frame_dt: 0 }
    }

    /// For how long the previous frame lasted.
    pub fn last_frame_dt(&self) -> (dt: u64)
        ensures
            dt == self.last_frame_dt,
    {
        self.last_frame_dt
    }

    /// Time passed since the last tick, for some current clock reading. A
    /// backward-moving clock yields zero and restarts the measurement from
    /// the new reading; otherwise the measurement base is untouched.
    pub fn dt_to_now(&mut self) -> (dt: u64)
        ensures
            final(self).last_frame_dt == old(self).last_frame_dt,
            exists|now: u64|
                dt == #[trigger] elapsed_ns(old(self).before, now) && final(self).before == (
                if now >= old(self).before {
                    old(self).before
                } else {
                    now
                }),
            dt > 0 ==> final(self).before == old(self).before,
    {
        let now: u64 = precise_time_ns();
        if now >= self.before {
            let dt: u64 = now - self.before;
            proof {
                assert(dt == elapsed_ns(old(self).before, now));
            }
            dt
        } else {
            self.before = now;
            proof {
                assert(0u64 == elapsed_ns(old(self).before, now));
            }
            0
        }
    }

    /// An update/frame/refresh has occurred; take the time. The elapsed
    /// time since the previous tick, clamped below at zero, becomes the
    /// last frame duration, and the measurement base moves to now.
    pub fn tick(&mut self)
        ensures
            exists|now: u64|
                final(self).last_frame_dt == #[trigger] elapsed_ns(old(self).before, now)
                    && final(self).before == now,
    {
        let now: u64 = precise_time_ns();
        let dt: u64 = if now >= self.before {
            now - self.before
        } else {
            0
        };
        proof {
            assert(dt == elapsed_ns(old(self).before, now));
        }
        self.last_frame_dt = dt;
        self.before = now;
    }
}

} // verus!
