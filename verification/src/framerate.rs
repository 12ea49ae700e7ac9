//! Smoothed frame rate and the stability flag derived from it.
//!
//! Times are whole microseconds and rates are whole millionths of a frame per
//! second, so one frame per second is `RATE_UNIT`.

use vstd::prelude::*;
use vstd::arithmetic::div_mod::lemma_div_multiples_vanish_quotient;
use vstd::arithmetic::div_mod::lemma_fundamental_div_mod;

verus! {

/// One frame per second, in the unit of `Framerate`; also one second in microseconds.
pub const RATE_UNIT: u64 = 1_000_000;

/// One frame per microsecond, in the unit of `Framerate`: the rate of a frame
/// that takes `d` microseconds is this divided by `d`.
pub const RATE_PER_MICRO: u64 = 1_000_000_000_000;

/// Shortest elapsed time that is taken at face value; shorter ones count as this.
pub const MIN_ELAPSED: u64 = 100;

/// A frame longer than this is reported as slow.
pub const SLOW_FRAME: u64 = 100_000;

/// The smoothing weight of a frame is its elapsed time over this, at most one.
pub const SMOOTHING_SPAN: u64 = 2_000_000;

/// The rate above which the frame rate counts as stable, and below which it does not.
pub const MIN_STABLE_RATE: u64 = 20_000_000;

/// Smoothed frames per second, in millionths.
#[derive(Clone, Copy, Debug, PartialEq, Eq, Structural)]
pub struct Framerate(pub u64);

/// Whether the smoothed rate last left the threshold upward.
#[derive(Clone, Copy, Debug, PartialEq, Eq, Structural)]
pub struct FramerateIsStable(pub bool);

impl Default for Framerate {
    /// The monitor starts at rest, before any frame.
    fn default() -> (framerate: Framerate)
        ensures
            framerate == Framerate(0),
    {
        Framerate(0)
    }
}

impl Default for FramerateIsStable {
    /// Before any frame the rate has not left the threshold upward.
    fn default() -> (stable: FramerateIsStable)
        ensures
            stable == FramerateIsStable(false),
    {
        FramerateIsStable(false)
    }
}

/// How the stability flag changed in one tick.
#[derive(Clone, Copy, Debug, PartialEq, Eq, Structural)]
pub enum StabilityChange {
    Unchanged,
    BecameStable,
    BecameUnstable,
}

/// What one tick of the monitor has to tell the log.
#[derive(Clone, Copy, Debug, PartialEq, Eq, Structural)]
pub struct FrameReport {
    /// The frame took longer than `SLOW_FRAME`.
    pub slow_frame: bool,
    pub change: StabilityChange,
}

/// The elapsed time that enters the average: the measured one, floored.
pub open spec fn floored_elapsed(elapsed: int) -> int {
    if elapsed < MIN_ELAPSED as int {
        MIN_ELAPSED as int
    } else {
        elapsed
    }
}

/// The numerator of the smoothing weight `n = min(d / SMOOTHING_SPAN, 1)`.
pub open spec fn smoothing_weight(d: int) -> int {
    if d < SMOOTHING_SPAN as int {
        d
    } else {
        SMOOTHING_SPAN as int
    }
}

/// `rate * (1 - n) + (1 / d) * n`, rounded down, for a frame of `d` microseconds.
pub open spec fn blend(rate: int, d: int) -> int {
    let n = smoothing_weight(d);
    let span = SMOOTHING_SPAN as int;
    (rate * (span - n) * d + RATE_PER_MICRO as int * n) / (span * d)
}

/// The smoothed rate after a frame that was measured at `elapsed` microseconds.
pub open spec fn smoothed_rate(rate: int, elapsed: int) -> int {
    blend(rate, floored_elapsed(elapsed))
}

/// The flag after the smoothed rate has become `rate`.
pub open spec fn stable_after(was_stable: bool, rate: int) -> bool {
    if rate > MIN_STABLE_RATE as int {
        true
    } else if rate < MIN_STABLE_RATE as int {
        false
    } else {
        was_stable
    }
}

/// The change that takes the flag from `before` to `after`.
pub open spec fn change_between(before: bool, after: bool) -> StabilityChange {
    if before == after {
        StabilityChange::Unchanged
    } else if after {
        StabilityChange::BecameStable
    } else {
        StabilityChange::BecameUnstable
    }
}

/// While the frame is no longer than the smoothing span, the blend is the old
/// rate moved by the rounded-down share of its distance to the frame's rate.
pub proof fn lemma_blend_short(rate: int, d: int)
    requires
        0 <= rate,
        0 < d <= SMOOTHING_SPAN as int,
    ensures
        blend(rate, d) == (rate * (SMOOTHING_SPAN as int - d) + RATE_PER_MICRO as int) / (
        SMOOTHING_SPAN as int),
{
    let span = SMOOTHING_SPAN as int;
    let a = rate * (span - d) + RATE_PER_MICRO as int;
    assert(0 <= rate * (span - d)) by (nonlinear_arith)
        requires
            0 <= rate,
            0 <= span - d,
    ;
    assert(rate * (span - d) * d + RATE_PER_MICRO as int * d == d * a) by (nonlinear_arith)
        requires
            a == rate * (span - d) + RATE_PER_MICRO as int,
    ;
    assert(span * d == d * span) by (nonlinear_arith);
    lemma_div_multiples_vanish_quotient(d, a, span);
}

/// A frame longer than the smoothing span replaces the rate by its own.
pub proof fn lemma_blend_long(rate: int, d: int)
    requires
        SMOOTHING_SPAN as int <= d,
    ensures
        blend(rate, d) == RATE_PER_MICRO as int / d,
{
    let span = SMOOTHING_SPAN as int;
    assert(rate * (span - span) * d == 0) by (nonlinear_arith);
    assert(RATE_PER_MICRO as int * span == span * RATE_PER_MICRO as int) by (nonlinear_arith);
    lemma_div_multiples_vanish_quotient(span, RATE_PER_MICRO as int, d);
}

/// The blend never leaves the range spanned by the old rate and the frame's own rate.
pub proof fn lemma_blend_bounds(rate: int, d: int)
    requires
        0 <= rate,
        0 < d,
    ensures
        0 <= blend(rate, d),
        blend(rate, d) <= rate || blend(rate, d) <= RATE_PER_MICRO as int / d,
{
    let span = SMOOTHING_SPAN as int;
    let unit = RATE_PER_MICRO as int;
    if d >= span {
        lemma_blend_long(rate, d);
        assert(0 <= unit / d) by (nonlinear_arith)
            requires
                0 < d,
                0 <= unit,
        ;
    } else {
        lemma_blend_short(rate, d);
        let a = rate * (span - d) + unit;
        let q = a / span;
        lemma_fundamental_div_mod(a, span);
        assert(0 <= rate * (span - d)) by (nonlinear_arith)
            requires
                0 <= rate,
                0 <= span - d,
        ;
        assert(0 <= q) by (nonlinear_arith)
            requires
                0 <= a,
                0 < span,
                q == a / span,
        ;
        if q > rate {
            // span * q <= a gives q * d <= unit - (q - rate) * (span - d) <= unit.
            assert(q * d <= unit) by (nonlinear_arith)
                requires
                    span * q + a % span == a,
                    0 <= a % span,
                    a == rate * (span - d) + unit,
                    q > rate,
                    0 < d < span,
            ;
            assert(q <= unit / d) by (nonlinear_arith)
                requires
                    q * d <= unit,
                    0 < d,
            ;
        }
    }
}

/// Advances the monitor by one frame of `elapsed_micros` microseconds.
///
/// The rate becomes the exponentially weighted average of the old rate and the
/// frame's own rate; the flag follows the new rate across the threshold.
pub fn update_framerate(
    framerate: &mut Framerate,
    elapsed_micros: u64,
    stable: &mut FramerateIsStable,
) -> (report: FrameReport)
    ensures
        final(framerate).0 as int == smoothed_rate(old(framerate).0 as int, elapsed_micros as int),
        final(stable).0 == stable_after(old(stable).0, final(framerate).0 as int),
        report.slow_frame == (floored_elapsed(elapsed_micros as int) > SLOW_FRAME as int),
        report.change == change_between(old(stable).0, final(stable).0),
{
    let d: u64 = if elapsed_micros < MIN_ELAPSED {
        MIN_ELAPSED
    } else {
        elapsed_micros
    };
    let rate: u64 = framerate.0;
    proof {
        lemma_blend_bounds(rate as int, d as int);
        assert(RATE_PER_MICRO as int / (d as int) <= RATE_PER_MICRO as int) by (nonlinear_arith)
            requires
                0 < d,
        ;
    }
    let next: u64 = if d >= SMOOTHING_SPAN {
        proof {
            lemma_blend_long(rate as int, d as int);
        }
        RATE_PER_MICRO / d
    } else {
        proof {
            lemma_blend_short(rate as int, d as int);
            assert(rate as int * (SMOOTHING_SPAN as int - d as int) <= 0xffff_ffff_ffff_ffff
                * 2_000_000) by (nonlinear_arith)
                requires
                    0 <= rate <= 0xffff_ffff_ffff_ffff,
                    0 <= SMOOTHING_SPAN as int - d as int <= 2_000_000,
            ;
        }
        let keep: u128 = (SMOOTHING_SPAN - d) as u128;
        let sum: u128 = rate as u128 * keep + RATE_PER_MICRO as u128;
        let blended: u128 = sum / (SMOOTHING_SPAN as u128);
        blended as u64
    };
    framerate.0 = next;
    let was_stable: bool = stable.0;
    if next > MIN_STABLE_RATE {
        stable.0 = true;
    } else if next < MIN_STABLE_RATE {
        stable.0 = false;
    }
    let change = if was_stable == stable.0 {
        StabilityChange::Unchanged
    } else if stable.0 {
        StabilityChange::BecameStable
    } else {
        StabilityChange::BecameUnstable
    };
    FrameReport { slow_frame: d > SLOW_FRAME, change }
}

} // verus!
