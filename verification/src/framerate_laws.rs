//! What holds of the frame-rate monitor over many frames.

use vstd::prelude::*;
use vstd::arithmetic::div_mod::lemma_fundamental_div_mod;
use vstd::arithmetic::div_mod::lemma_fundamental_div_mod_converse;
use vstd::arithmetic::power::pow;
use vstd::arithmetic::power::lemma_pow0;
use vstd::arithmetic::power::lemma_pow_positive;
use crate::framerate::RATE_PER_MICRO;
use crate::framerate::SMOOTHING_SPAN;
use crate::framerate::MIN_STABLE_RATE;
use crate::framerate::blend;
use crate::framerate::floored_elapsed;
use crate::framerate::smoothed_rate;
use crate::framerate::stable_after;
use crate::framerate::lemma_blend_short;
use crate::framerate::lemma_blend_long;
use crate::framerate::lemma_blend_bounds;

verus! {

/// How far `rate` is below the rate of a frame of `d` microseconds, times `d`;
/// negative when `rate` is above it.
pub open spec fn shortfall(rate: int, d: int) -> int {
    RATE_PER_MICRO as int - rate * d
}

/// The size of the shortfall, whichever way it points.
pub open spec fn distance(rate: int, d: int) -> int {
    if shortfall(rate, d) < 0 {
        -shortfall(rate, d)
    } else {
        shortfall(rate, d)
    }
}

/// The rate after `frames` frames that were all measured at `elapsed` microseconds.
pub open spec fn rate_after(rate: int, elapsed: int, frames: nat) -> int
    decreases frames,
{
    if frames == 0 {
        rate
    } else {
        smoothed_rate(rate_after(rate, elapsed, (frames - 1) as nat), elapsed)
    }
}

/// The flag after the smoothed rate has taken the values of `rates` in turn.
pub open spec fn flag_over(was_stable: bool, rates: Seq<int>) -> bool
    decreases rates.len(),
{
    if rates.len() == 0 {
        was_stable
    } else {
        stable_after(flag_over(was_stable, rates.drop_last()), rates.last())
    }
}

/// A short frame moves the rate by the rounded-down share of the shortfall.
proof fn lemma_blend_moves_by_share(rate: int, d: int)
    requires
        0 <= rate,
        0 < d <= SMOOTHING_SPAN as int,
    ensures
        blend(rate, d) == rate + shortfall(rate, d) / (SMOOTHING_SPAN as int),
        shortfall(blend(rate, d), d) == shortfall(rate, d) - (shortfall(rate, d) / (
        SMOOTHING_SPAN as int)) * d,
{
    let span = SMOOTHING_SPAN as int;
    let e = shortfall(rate, d);
    let q = e / span;
    let r = e % span;
    lemma_blend_short(rate, d);
    lemma_fundamental_div_mod(e, span);
    let a = rate * (span - d) + RATE_PER_MICRO as int;
    assert(a == (rate + q) * span + r) by (nonlinear_arith)
        requires
            a == rate * (span - d) + RATE_PER_MICRO as int,
            e == RATE_PER_MICRO as int - rate * d,
            e == span * q + r,
    ;
    lemma_fundamental_div_mod_converse(a, span, rate + q, r);
    assert(RATE_PER_MICRO as int - (rate + q) * d == e - q * d) by (nonlinear_arith)
        requires
            e == RATE_PER_MICRO as int - rate * d,
    ;
}

/// Steady state: a short frame leaves the rate where it is exactly when the
/// rate is at most the frame's own rate and less than one rounding step below it.
pub proof fn lemma_steady_state(rate: int, d: int)
    requires
        0 <= rate,
        0 < d <= SMOOTHING_SPAN as int,
    ensures
        blend(rate, d) == rate <==> 0 <= shortfall(rate, d) < SMOOTHING_SPAN as int,
{
    let span = SMOOTHING_SPAN as int;
    let e = shortfall(rate, d);
    lemma_blend_moves_by_share(rate, d);
    lemma_fundamental_div_mod(e, span);
    if 0 <= e < span {
        lemma_fundamental_div_mod_converse(e, span, 0, e);
    }
}

/// One frame brings the rate closer to the frame's own rate: the distance
/// shrinks by the factor `1 - n`, where `n` is the frame's smoothing weight,
/// up to less than one unit of rate lost in rounding.
pub proof fn lemma_frame_contracts(rate: int, d: int)
    requires
        0 <= rate,
        0 < d <= SMOOTHING_SPAN as int,
    ensures
        SMOOTHING_SPAN as int * distance(blend(rate, d), d) <= (SMOOTHING_SPAN as int - d)
            * distance(rate, d) + d * SMOOTHING_SPAN as int,
        distance(blend(rate, d), d) <= distance(rate, d) || distance(blend(rate, d), d) < d,
{
    let span = SMOOTHING_SPAN as int;
    let e = shortfall(rate, d);
    let q = e / span;
    let r = e % span;
    let e2 = shortfall(blend(rate, d), d);
    lemma_blend_moves_by_share(rate, d);
    lemma_fundamental_div_mod(e, span);
    assert(e2 == q * (span - d) + r) by (nonlinear_arith)
        requires
            e2 == e - q * d,
            e == span * q + r,
    ;
    if e >= 0 {
        assert(q >= 0) by (nonlinear_arith)
            requires
                e == span * q + r,
                e >= 0,
                0 <= r < span,
        ;
        assert(span * e2 - (span - d) * e == d * r && d * r <= d * span && 0 <= e2 && e2 <= e)
            by (nonlinear_arith)
            requires
                e2 == q * (span - d) + r,
                e == span * q + r,
                0 <= r < span,
                0 < d <= span,
                q >= 0,
        ;
    } else {
        assert(q <= -1) by (nonlinear_arith)
            requires
                e == span * q + r,
                e < 0,
                0 <= r < span,
                0 < span,
        ;
        if e2 >= 0 {
            assert(e2 < d && span * e2 <= d * span && 0 <= (span - d) * (-e)) by (nonlinear_arith)
                requires
                    e2 == q * (span - d) + r,
                    0 <= r < span,
                    0 < d <= span,
                    q <= -1,
                    e2 >= 0,
                    e < 0,
            ;
        } else {
            assert(span * (-e2) - (span - d) * (-e) == -(d * r) && 0 <= d * r && 0 <= d * span
                && -e2 <= -e) by (nonlinear_arith)
                requires
                    e2 == q * (span - d) + r,
                    e == span * q + r,
                    0 <= r < span,
                    0 < d <= span,
                    q <= -1,
            ;
        }
    }
}

/// A frame as long as the smoothing span or longer sets the rate to the
/// frame's own rate, rounded down.
pub proof fn lemma_long_frame_lands(rate: int, d: int)
    requires
        SMOOTHING_SPAN as int <= d,
    ensures
        0 <= shortfall(blend(rate, d), d) < d,
{
    let unit = RATE_PER_MICRO as int;
    lemma_blend_long(rate, d);
    lemma_fundamental_div_mod(unit, d);
    assert((unit / d) * d == d * (unit / d)) by (nonlinear_arith);
}

/// A power of a number that is not negative is not negative.
proof fn lemma_pow_of_nonnegative(b: int, e: nat)
    requires
        0 <= b,
    ensures
        0 <= pow(b, e),
    decreases e,
{
    reveal(pow);
    if e > 0 {
        lemma_pow_of_nonnegative(b, (e - 1) as nat);
        assert(0 <= b * pow(b, (e - 1) as nat)) by (nonlinear_arith)
            requires
                0 <= b,
                0 <= pow(b, (e - 1) as nat),
        ;
    }
}

/// The rate stays a rate: it is never negative, however many frames pass.
pub proof fn lemma_rate_after_nonnegative(rate: int, elapsed: int, frames: nat)
    requires
        0 <= rate,
    ensures
        0 <= rate_after(rate, elapsed, frames),
    decreases frames,
{
    if frames > 0 {
        lemma_rate_after_nonnegative(rate, elapsed, (frames - 1) as nat);
        lemma_blend_bounds(rate_after(rate, elapsed, (frames - 1) as nat), floored_elapsed(elapsed));
    }
}

/// Convergence at constant elapsed time: after `frames` frames of the same
/// length `d`, no longer than the smoothing span, the distance to the frame's
/// own rate is at most `(1 - n)^frames` times the distance at the start, plus
/// the rounding that one smoothing span's worth of frames can lose.
pub proof fn lemma_converges_geometrically(rate: int, elapsed: int, frames: nat)
    requires
        0 <= rate,
        floored_elapsed(elapsed) <= SMOOTHING_SPAN as int,
    ensures
        pow(SMOOTHING_SPAN as int, frames) * distance(
            rate_after(rate, elapsed, frames),
            floored_elapsed(elapsed),
        ) <= pow(SMOOTHING_SPAN as int - floored_elapsed(elapsed), frames) * distance(
            rate,
            floored_elapsed(elapsed),
        ) + pow(SMOOTHING_SPAN as int, frames) * SMOOTHING_SPAN as int,
    decreases frames,
{
    let span = SMOOTHING_SPAN as int;
    let d = floored_elapsed(elapsed);
    if frames == 0 {
        lemma_pow0(span);
        lemma_pow0(span - d);
    } else {
        let k = (frames - 1) as nat;
        let prev = rate_after(rate, elapsed, k);
        lemma_converges_geometrically(rate, elapsed, k);
        lemma_rate_after_nonnegative(rate, elapsed, k);
        lemma_frame_contracts(prev, d);
        let x1 = distance(rate_after(rate, elapsed, frames), d);
        let x0 = distance(prev, d);
        let y = distance(rate, d);
        let ps = pow(span, k);
        let pk = pow(span - d, k);
        lemma_pow_positive(span, k);
        lemma_pow_of_nonnegative(span - d, k);
        assert(pow(span, frames) == span * ps) by {
            reveal(pow);
        }
        assert(pow(span - d, frames) == (span - d) * pk) by {
            reveal(pow);
        }
        assert((span * ps) * x1 <= ((span - d) * pk) * y + (span * ps) * span)
            by (nonlinear_arith)
            requires
                span * x1 <= (span - d) * x0 + d * span,
                ps * x0 <= pk * y + ps * span,
                0 < ps,
                0 <= span - d,
                0 < d,
        ;
    }
}

/// Convergence in finitely many frames: once `frames` frames of the same
/// length `d` add up to the distance at the start, the rate has reached its
/// steady state, less than one rounding step below the frame's own rate, and
/// further frames of that length leave it there.
pub proof fn lemma_settles(rate: int, elapsed: int, frames: nat)
    requires
        0 <= rate,
        floored_elapsed(elapsed) <= SMOOTHING_SPAN as int,
        frames * floored_elapsed(elapsed) >= distance(rate, floored_elapsed(elapsed)),
    ensures
        0 <= shortfall(rate_after(rate, elapsed, frames), floored_elapsed(elapsed))
            < SMOOTHING_SPAN as int,
        rate_after(rate, elapsed, frames + 1) == rate_after(rate, elapsed, frames),
{
    let span = SMOOTHING_SPAN as int;
    let d = floored_elapsed(elapsed);
    lemma_approaches(rate, elapsed, frames);
    lemma_rate_after_nonnegative(rate, elapsed, frames);
    lemma_steady_state(rate_after(rate, elapsed, frames), d);
    assert(rate_after(rate, elapsed, frames + 1) == smoothed_rate(
        rate_after(rate, elapsed, frames),
        elapsed,
    ));
}

/// Until the rate is in its steady state, each frame of length `d` takes at
/// least `d` off the distance.
proof fn lemma_approaches(rate: int, elapsed: int, frames: nat)
    requires
        0 <= rate,
        floored_elapsed(elapsed) <= SMOOTHING_SPAN as int,
    ensures
        ({
            let d = floored_elapsed(elapsed);
            let e = shortfall(rate_after(rate, elapsed, frames), d);
            (0 <= e < SMOOTHING_SPAN as int) || distance(rate_after(rate, elapsed, frames), d)
                <= distance(rate, d) - frames * d
        }),
    decreases frames,
{
    let span = SMOOTHING_SPAN as int;
    let d = floored_elapsed(elapsed);
    if frames > 0 {
        let k = (frames - 1) as nat;
        let prev = rate_after(rate, elapsed, k);
        lemma_approaches(rate, elapsed, k);
        lemma_rate_after_nonnegative(rate, elapsed, k);
        lemma_blend_moves_by_share(prev, d);
        let e = shortfall(prev, d);
        let q = e / span;
        let r = e % span;
        let e2 = shortfall(blend(prev, d), d);
        lemma_fundamental_div_mod(e, span);
        assert(frames * d == k * d + d) by (nonlinear_arith)
            requires
                frames == k + 1,
        ;
        assert(rate_after(rate, elapsed, frames) == blend(prev, d));
        if 0 <= e < span {
            lemma_steady_state(prev, d);
        } else if e >= span {
            assert(q >= 1 && 0 <= e2 && e2 <= e - d) by (nonlinear_arith)
                requires
                    e2 == e - q * d,
                    e == span * q + r,
                    0 <= r < span,
                    0 < d <= span,
                    e >= span,
            ;
        } else {
            assert(q <= -1 && e2 >= e + d && e2 < d) by (nonlinear_arith)
                requires
                    e2 == e - q * d,
                    e == span * q + r,
                    0 <= r < span,
                    0 < d <= span,
                    e < 0,
            ;
        }
    } else {
        assert(frames * d == 0) by (nonlinear_arith)
            requires
                frames == 0,
        ;
    }
}

/// The flag is set exactly when the latest rate that was off the threshold was
/// above it; where no rate was off the threshold yet, the flag is as it began.
pub proof fn lemma_flag_follows_last_crossing(was_stable: bool, rates: Seq<int>)
    ensures
        flag_over(was_stable, rates) <==> (exists|j: int|
            0 <= j < rates.len() && #[trigger] rates[j] > MIN_STABLE_RATE as int && (forall|i: int|
                j < i < rates.len() ==> #[trigger] rates[i] >= MIN_STABLE_RATE as int)) || (
        was_stable && (forall|i: int|
            0 <= i < rates.len() ==> #[trigger] rates[i] >= MIN_STABLE_RATE as int)),
    decreases rates.len(),
{
    let th = MIN_STABLE_RATE as int;
    if rates.len() > 0 {
        let init = rates.drop_last();
        let last = rates.last();
        let n = rates.len() as int;
        lemma_flag_follows_last_crossing(was_stable, init);
        assert(forall|i: int| 0 <= i < n - 1 ==> init[i] == rates[i]);
        let up = |s: Seq<int>|
            exists|j: int|
                0 <= j < s.len() && #[trigger] s[j] > th && (forall|i: int|
                    j < i < s.len() ==> #[trigger] s[i] >= th);
        let held = |s: Seq<int>| forall|i: int| 0 <= i < s.len() ==> #[trigger] s[i] >= th;
        if last > th {
            assert(rates[n - 1] > th);
            assert(up(rates));
        } else if last < th {
            assert(rates[n - 1] < th);
            assert(!held(rates));
            assert(!up(rates)) by {
                if up(rates) {
                    let j = choose|j: int|
                        0 <= j < rates.len() && #[trigger] rates[j] > th && (forall|i: int|
                            j < i < rates.len() ==> #[trigger] rates[i] >= th);
                    assert(j < n - 1);
                    assert(rates[n - 1] >= th);
                }
            }
        } else {
            assert(rates[n - 1] == th);
            if up(init) {
                let j = choose|j: int|
                    0 <= j < init.len() && #[trigger] init[j] > th && (forall|i: int|
                        j < i < init.len() ==> #[trigger] init[i] >= th);
                assert(rates[j] > th);
                assert forall|i: int| j < i < rates.len() implies #[trigger] rates[i] >= th by {
                    if i < n - 1 {
                        assert(init[i] >= th);
                    }
                }
                assert(up(rates));
            }
            if up(rates) {
                let j = choose|j: int|
                    0 <= j < rates.len() && #[trigger] rates[j] > th && (forall|i: int|
                        j < i < rates.len() ==> #[trigger] rates[i] >= th);
                assert(j < n - 1);
                assert(init[j] > th);
                assert forall|i: int| j < i < init.len() implies #[trigger] init[i] >= th by {
                    assert(rates[i] >= th);
                }
                assert(up(init));
            }
            if held(init) {
                assert forall|i: int| 0 <= i < rates.len() implies #[trigger] rates[i] >= th by {
                    if i < n - 1 {
                        assert(init[i] >= th);
                    }
                }
            }
            if held(rates) {
                assert forall|i: int| 0 <= i < init.len() implies #[trigger] init[i] >= th by {
                    assert(rates[i] >= th);
                }
            }
        }
    }
}

/// No flip without a crossing: while the rate stays on the side of the
/// threshold that the flag stands for, or on the threshold itself, the flag
/// keeps its value after every frame.
pub proof fn lemma_flag_holds_without_crossing(was_stable: bool, rates: Seq<int>, frames: int)
    requires
        0 <= frames <= rates.len(),
        was_stable ==> forall|i: int|
            0 <= i < frames ==> #[trigger] rates[i] >= MIN_STABLE_RATE as int,
        !was_stable ==> forall|i: int|
            0 <= i < frames ==> #[trigger] rates[i] <= MIN_STABLE_RATE as int,
    ensures
        flag_over(was_stable, rates.take(frames)) == was_stable,
    decreases frames,
{
    if frames > 0 {
        lemma_flag_holds_without_crossing(was_stable, rates, frames - 1);
        assert(rates.take(frames).drop_last() =~= rates.take(frames - 1));
        assert(rates.take(frames).last() == rates[frames - 1]);
    }
}

} // verus!
