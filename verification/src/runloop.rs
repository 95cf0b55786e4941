//! The per-iteration decisions of the main loop: whether to attempt a
//! capture, what a capture failure costs, whether a frame is written, and
//! how long to sleep to hold the configured refresh rate. The loop itself
//! performs capture, transport writes and sleeps; every decision it acts on
//! comes from here.

use vstd::prelude::*;

verus! {

/// How long the loop backs off after a failed capture before it rebuilds
/// the capture resource, in milliseconds.
pub const CAPTURE_FAILURE_BACKOFF_MS: u64 = 1000;

/// What one loop iteration does after the capture stage.
#[derive(Clone, Copy, Debug, PartialEq, Eq, Structural)]
pub enum IterationStep {
    /// The capture failed: sleep the backoff, rebuild the capture resource,
    /// and touch neither the output buffer nor the transport this iteration.
    Backoff { sleep_ms: u64 },
    /// A stored frame exists: analyze, transform, smooth and write a frame.
    Refresh,
    /// No stored frame yet: write nothing, only pace the next iteration.
    Pace,
}

/// A capture is attempted only when more than the capture interval has
/// passed since the last successful capture; otherwise the stored frame is
/// reused and smoothing still progresses.
pub fn should_capture(elapsed_ns: u64, capture_interval_ns: u64) -> (attempt: bool)
    ensures
        attempt == (elapsed_ns > capture_interval_ns),
{
    elapsed_ns > capture_interval_ns
}

/// Decides the rest of the iteration from the capture stage's outcome: a
/// failed capture is recovered by backing off, and a frame is written
/// exactly when a capture has not failed and a stored frame exists.
pub fn plan_iteration(capture_failed: bool, frame_available: bool) -> (step: IterationStep)
    ensures
        step == (if capture_failed {
            IterationStep::Backoff { sleep_ms: CAPTURE_FAILURE_BACKOFF_MS }
        } else if frame_available {
            IterationStep::Refresh
        } else {
            IterationStep::Pace
        }),
        capture_failed ==> step != IterationStep::Refresh,
{
    if capture_failed {
        IterationStep::Backoff { sleep_ms: CAPTURE_FAILURE_BACKOFF_MS }
    } else if frame_available {
        IterationStep::Refresh
    } else {
        IterationStep::Pace
    }
}

/// What remains of the refresh budget after an iteration: the refresh
/// interval less the time the iteration took, and zero when the iteration
/// overran the budget, in which case no sleep occurs.
pub fn sleep_budget_ns(refresh_interval_ns: u64, elapsed_ns: u64) -> (budget: u64)
    ensures
        budget == (if elapsed_ns < refresh_interval_ns {
            (refresh_interval_ns - elapsed_ns) as u64
        } else {
            0
        }),
{
    if elapsed_ns < refresh_interval_ns {
        refresh_interval_ns - elapsed_ns
    } else {
        0
    }
}

/// The smoothing time constant actually used: a configured zero is lifted
/// to the smallest positive value so the smoothing factor never divides by
/// zero.
pub fn effective_time_const_ns(configured_ns: u64) -> (tc: u64)
    ensures
        tc == (if configured_ns == 0 {
            1u64
        } else {
            configured_ns
        }),
        tc > 0,
{
    if configured_ns == 0 {
        1
    } else {
        configured_ns
    }
}

/// Runs `body` over and over until it asks to stop by returning false, or
/// until `max_iterations` calls have been made; a caller that wants the
/// loop bounded only by the shutdown signal passes `u64::MAX`. Returns
/// whether `body` asked to stop, in which case its final call returned
/// false; a run that exhausts a positive budget instead saw `body` return
/// true.
pub fn main_loop<F: Fn() -> bool>(body: F, max_iterations: u64) -> (stopped: bool)
    requires
        call_requires(body, ()),
    ensures
        stopped ==> call_ensures(body, (), false),
        !stopped && max_iterations > 0 ==> call_ensures(body, (), true),
{
    let mut i: u64 = 0;
    while i < max_iterations
        invariant
            call_requires(body, ()),
            i <= max_iterations,
            i > 0 ==> call_ensures(body, (), true),
        decreases max_iterations - i,
    {
        if !body() {
            return true;
        }
        i = i + 1;
    }
    false
}

} // verus!
