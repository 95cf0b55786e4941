//! Temporal smoothing between the previously emitted color and the newly
//! computed target color. The blend runs per channel in the 8-bit integer
//! domain; how far the output moves toward the target is the ratio of the
//! elapsed time to the configured time constant, both in nanoseconds.

use vstd::prelude::*;
use vstd::arithmetic::mul::lemma_mul_inequality;
use vstd::arithmetic::div_mod::{lemma_div_is_ordered, lemma_div_multiples_vanish};
use crate::color::RGB8;

verus! {

/// The smoothing policy, chosen once at startup from configuration.
#[derive(Clone, Copy, Debug, PartialEq, Eq, Structural)]
pub enum SmoothingPolicy {
    /// Output is the target, unconditionally.
    NoSmooth,
    /// Output moves from the previous color toward the target in proportion
    /// to elapsed time over the time constant, clamped at the target.
    Linear,
}

/// One channel of the linear blend: `prev` moved toward `target` by the
/// fraction `dt_ns / time_const_ns`, truncating toward zero, and exactly
/// `target` once the elapsed time reaches the time constant.
pub open spec fn linear_blend_channel(prev: u8, target: u8, dt_ns: u64, time_const_ns: u64) -> u8
    recommends
        0 < time_const_ns,
{
    if dt_ns >= time_const_ns {
        target
    } else if target >= prev {
        (prev + (target - prev) * dt_ns / (time_const_ns as int)) as u8
    } else {
        (prev - (prev - target) * dt_ns / (time_const_ns as int)) as u8
    }
}

/// The blended step stays within the distance between the two endpoints,
/// so the channel arithmetic stays inside 0..=255.
proof fn lemma_blend_step_bounded(delta: int, dt: int, tc: int)
    requires
        0 <= delta,
        0 <= dt < tc,
    ensures
        0 <= delta * dt / tc <= delta,
{
    lemma_mul_inequality(dt, tc, delta);
    assert(delta * dt == dt * delta);
    assert(delta * tc == tc * delta);
    lemma_div_is_ordered(delta * dt, delta * tc, tc);
    lemma_div_multiples_vanish(delta, tc);
    lemma_div_is_ordered(0, delta * dt, tc);
}

/// The linear blend never overshoots: whatever the elapsed time, each
/// channel of the output lies between the previous value and the target.
pub proof fn lemma_linear_blend_bounded(prev: u8, target: u8, dt_ns: u64, time_const_ns: u64)
    requires
        0 < time_const_ns,
    ensures
        prev <= target ==> prev <= linear_blend_channel(prev, target, dt_ns, time_const_ns)
            <= target,
        target <= prev ==> target <= linear_blend_channel(prev, target, dt_ns, time_const_ns)
            <= prev,
{
    if dt_ns < time_const_ns {
        if target >= prev {
            lemma_blend_step_bounded((target - prev) as int, dt_ns as int, time_const_ns as int);
        } else {
            lemma_blend_step_bounded((prev - target) as int, dt_ns as int, time_const_ns as int);
        }
    }
}

fn blend_channel(prev: u8, target: u8, dt_ns: u64, time_const_ns: u64) -> (c: u8)
    requires
        0 < time_const_ns,
    ensures
        c == linear_blend_channel(prev, target, dt_ns, time_const_ns),
{
    if dt_ns >= time_const_ns {
        target
    } else if target >= prev {
        let delta: u128 = (target - prev) as u128;
        proof {
            lemma_mul_inequality(delta as int, 255, dt_ns as int);
            lemma_mul_inequality(dt_ns as int, u64::MAX as int, 255);
            lemma_blend_step_bounded(delta as int, dt_ns as int, time_const_ns as int);
        }
        let step: u128 = delta * (dt_ns as u128) / (time_const_ns as u128);
        prev + (step as u8)
    } else {
        let delta: u128 = (prev - target) as u128;
        proof {
            lemma_mul_inequality(delta as int, 255, dt_ns as int);
            lemma_mul_inequality(dt_ns as int, u64::MAX as int, 255);
            lemma_blend_step_bounded(delta as int, dt_ns as int, time_const_ns as int);
        }
        let step: u128 = delta * (dt_ns as u128) / (time_const_ns as u128);
        prev - (step as u8)
    }
}

/// The "linear" policy: each channel blended independently from the previous
/// output toward the target by `dt_ns / time_const_ns`. Reaching or passing
/// the time constant yields exactly the target; zero elapsed time yields
/// exactly the previous color.
pub fn linear_smooth(prev: RGB8, target: RGB8, dt_ns: u64, time_const_ns: u64) -> (c: RGB8)
    requires
        0 < time_const_ns,
    ensures
        c.r == linear_blend_channel(prev.r, target.r, dt_ns, time_const_ns),
        c.g == linear_blend_channel(prev.g, target.g, dt_ns, time_const_ns),
        c.b == linear_blend_channel(prev.b, target.b, dt_ns, time_const_ns),
        dt_ns >= time_const_ns ==> c == target,
        dt_ns == 0 ==> c == prev,
{
    RGB8 {
        r: blend_channel(prev.r, target.r, dt_ns, time_const_ns),
        g: blend_channel(prev.g, target.g, dt_ns, time_const_ns),
        b: blend_channel(prev.b, target.b, dt_ns, time_const_ns),
    }
}

/// The "none" policy: the target color is taken as is; elapsed time is
/// ignored.
pub fn no_smooth(prev: RGB8, target: RGB8) -> (c: RGB8)
    ensures
        c == target,
{
    target
}

/// What one LED's output color becomes for a given policy, previous output
/// color, target color and elapsed time.
pub open spec fn smooth_spec(
    policy: SmoothingPolicy,
    prev: RGB8,
    target: RGB8,
    dt_ns: u64,
    time_const_ns: u64,
) -> RGB8
    recommends
        0 < time_const_ns,
{
    match policy {
        SmoothingPolicy::NoSmooth => target,
        SmoothingPolicy::Linear => RGB8 {
            r: linear_blend_channel(prev.r, target.r, dt_ns, time_const_ns),
            g: linear_blend_channel(prev.g, target.g, dt_ns, time_const_ns),
            b: linear_blend_channel(prev.b, target.b, dt_ns, time_const_ns),
        },
    }
}

/// Smooths one LED color under the configured policy. Whatever the policy,
/// a smoothing factor at or past one (elapsed time at or past the time
/// constant) returns exactly the target, and under the linear policy zero
/// elapsed time returns exactly the previous color.
pub fn smooth_color(
    policy: SmoothingPolicy,
    prev: RGB8,
    target: RGB8,
    dt_ns: u64,
    time_const_ns: u64,
) -> (c: RGB8)
    requires
        0 < time_const_ns,
    ensures
        c == smooth_spec(policy, prev, target, dt_ns, time_const_ns),
        policy == SmoothingPolicy::NoSmooth ==> c == target,
        dt_ns >= time_const_ns ==> c == target,
        policy == SmoothingPolicy::Linear && dt_ns == 0 ==> c == prev,
{
    match policy {
        SmoothingPolicy::NoSmooth => no_smooth(prev, target),
        SmoothingPolicy::Linear => linear_smooth(prev, target, dt_ns, time_const_ns),
    }
}

/// Moves every LED of the output buffer toward its target color under the
/// configured smoothing policy. The buffer keeps its length; each slot is
/// rewritten in place from its previous value and its target.
pub fn apply_smoothing(
    out_pixels: &mut Vec<RGB8>,
    targets: &Vec<RGB8>,
    policy: SmoothingPolicy,
    dt_ns: u64,
    time_const_ns: u64,
)
    requires
        old(out_pixels)@.len() == targets@.len(),
        0 < time_const_ns,
    ensures
        final(out_pixels)@.len() == old(out_pixels)@.len(),
        forall|i: int|
            0 <= i < targets@.len() ==> final(out_pixels)@[i] == smooth_spec(
                policy,
                old(out_pixels)@[i],
                targets@[i],
                dt_ns,
                time_const_ns,
            ),
{
    let mut k: usize = 0;
    while k < targets.len()
        invariant
            k <= targets@.len(),
            out_pixels@.len() == targets@.len(),
            0 < time_const_ns,
            forall|i: int|
                0 <= i < k ==> out_pixels@[i] == smooth_spec(
                    policy,
                    old(out_pixels)@[i],
                    targets@[i],
                    dt_ns,
                    time_const_ns,
                ),
            forall|i: int| k <= i < targets@.len() ==> out_pixels@[i] == old(out_pixels)@[i],
        decreases targets@.len() - k,
    {
        let prev = out_pixels[k];
        out_pixels[k] = smooth_color(policy, prev, targets[k], dt_ns, time_const_ns);
        k = k + 1;
    }
}

} // verus!
