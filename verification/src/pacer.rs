//! Frame pacing: a target frame rate becomes a target interval between calls
//! in nanoseconds, and each paced call computes how long the caller must still
//! wait. The caller (a render hook) reads the clock and sleeps; this module
//! only does the arithmetic.

use vstd::prelude::*;

verus! {

/// Nanoseconds in one second.
pub const NANOS_PER_SECOND: u64 = 1_000_000_000;

/// The interval in nanoseconds between frames at the given frame rate,
/// rounded to the nearest nanosecond; 0 means "unlimited" (no pacing).
pub open spec fn spec_fps_to_interval(fps: u32) -> u64 {
    if fps == 0 {
        0u64
    } else {
        ((NANOS_PER_SECOND + fps as int / 2) / fps as int) as u64
    }
}

/// Converts a frame-rate limit to the paced interval between calls:
/// `round(1e9 / fps)` nanoseconds, and 0 ("unlimited") for `fps == 0`.
pub fn fps_to_interval(fps: u32) -> (interval_ns: u64)
    ensures
        interval_ns == spec_fps_to_interval(fps),
{
    if fps == 0 {
        0
    } else {
        let half: u64 = (fps / 2) as u64;
        (NANOS_PER_SECOND + half) / (fps as u64)
    }
}

/// A higher frame-rate limit never asks for a longer interval between frames.
pub proof fn lemma_fps_to_interval_antitone(a: u32, b: u32)
    requires
        0 < a <= b,
    ensures
        spec_fps_to_interval(b) <= spec_fps_to_interval(a),
{
    let k = NANOS_PER_SECOND as int;
    let qa = (k + a as int / 2) / (a as int);
    let qb = (k + b as int / 2) / (b as int);
    // What integer division guarantees of qa and qb.
    assert(qb * (b as int) <= k + b as int / 2 && qb >= 0) by (nonlinear_arith)
        requires
            qb == (k + b as int / 2) / (b as int),
            0 < b as int,
            k > 0;
    if qb >= 1 {
        // Halve-then-divide bounds carry from the larger denominator to the smaller.
        assert(2 * qb * (a as int) <= 2 * k + a as int) by (nonlinear_arith)
            requires
                qb * (b as int) <= k + b as int / 2,
                qb >= 1,
                0 < a as int <= b as int;
        assert(qb * (a as int) <= k + a as int / 2) by (nonlinear_arith)
            requires
                2 * qb * (a as int) <= 2 * k + a as int;
        assert(qb <= qa) by (nonlinear_arith)
            requires
                qa == (k + a as int / 2) / (a as int),
                qb * (a as int) <= k + a as int / 2,
                0 < a as int;
    } else {
        assert(qa >= 0) by (nonlinear_arith)
            requires
                qa == (k + a as int / 2) / (a as int),
                0 < a as int,
                k > 0;
    }
}

/// How long a paced call must still wait, given the target interval, the time
/// of the previous paced call, and the time now: the unfinished remainder of
/// the interval, and 0 when pacing is off or the interval has already passed.
pub open spec fn spec_pace_delay(interval_ns: u64, last_ns: u64, now_ns: u64) -> u64
    recommends
        last_ns <= now_ns,
{
    if interval_ns == 0 {
        0u64
    } else if now_ns - last_ns < interval_ns {
        (interval_ns - (now_ns - last_ns)) as u64
    } else {
        0u64
    }
}

/// The remaining wait before the next frame may be submitted. The clock is
/// monotonic, so the time now is never before the recorded last call.
pub fn pace_delay(interval_ns: u64, last_ns: u64, now_ns: u64) -> (delay_ns: u64)
    requires
        last_ns <= now_ns,
    ensures
        delay_ns == spec_pace_delay(interval_ns, last_ns, now_ns),
        delay_ns <= interval_ns,
{
    if interval_ns == 0 {
        0
    } else {
        let elapsed: u64 = now_ns - last_ns;
        if elapsed < interval_ns {
            interval_ns - elapsed
        } else {
            0
        }
    }
}

/// Pacing state: the target interval between paced calls and the time the
/// previous paced call completed. The target is changed by policy while the
/// paced side reads it; each side hands this module plain values, so a change
/// between two calls simply takes effect on the next one.
pub struct FramePacer {
    /// Target interval between paced calls in nanoseconds; 0 pauses nothing.
    pub interval_ns: u64,
    /// When the previous paced call recorded its completion, in nanoseconds.
    pub last_tick_ns: u64,
}

impl FramePacer {
    /// A pacer with pacing off and no call recorded yet.
    pub fn new() -> (pacer: Self)
        ensures
            pacer.interval_ns == 0,
            pacer.last_tick_ns == 0,
    {
        FramePacer { interval_ns: 0, last_tick_ns: 0 }
    }

    /// Sets the target frame rate; 0 turns pacing off.
    pub fn set_limit(&mut self, fps: u32)
        ensures
            final(self).interval_ns == spec_fps_to_interval(fps),
            final(self).last_tick_ns == old(self).last_tick_ns,
    {
        self.interval_ns = fps_to_interval(fps);
    }

    /// How long the paced call must sleep before going on. The caller sleeps
    /// for the returned time, then records the post-sleep clock reading with
    /// `record_tick`.
    pub fn tick_delay(&self, now_ns: u64) -> (delay_ns: u64)
        requires
            self.last_tick_ns <= now_ns,
        ensures
            delay_ns == spec_pace_delay(self.interval_ns, self.last_tick_ns, now_ns),
            delay_ns <= self.interval_ns,
    {
        pace_delay(self.interval_ns, self.last_tick_ns, now_ns)
    }

    /// Re-bases pacing on the time the paced call actually completed, so each
    /// interval is measured call-to-call and drift is not corrected. While
    /// pacing is off nothing is recorded.
    pub fn record_tick(&mut self, now_ns: u64)
        ensures
            final(self).interval_ns == old(self).interval_ns,
            final(self).last_tick_ns == if old(self).interval_ns == 0 {
                old(self).last_tick_ns
            } else {
                now_ns
            },
    {
        if self.interval_ns != 0 {
            self.last_tick_ns = now_ns;
        }
    }
}

} // verus!
