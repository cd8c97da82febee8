//! Timeline math: normalized animation progress values derived from an
//! elapsed time and a period, both in whole milliseconds.
//!
//! Each function returns an exact [`Proportion`], the fraction
//! `numerator / denominator` of a progress value in `[0, 1]`, so that no
//! precision is lost to rounding. A caller that needs the progress as a
//! machine number divides the two fields itself.

use vstd::arithmetic::div_mod::{
    lemma_basic_div, lemma_div_plus_one, lemma_mod_add_multiples_vanish, lemma_small_mod,
};
use vstd::prelude::*;

verus! {

/// A normalized progress value held exactly: the fraction
/// `numerator / denominator` of a value in `[0, 1]`.
#[derive(Clone, Copy, Debug, PartialEq, Eq, Structural)]
pub struct Proportion {
    pub numerator: u64,
    pub denominator: u64,
}

impl Proportion {
    /// The denominator is a positive period and the numerator never
    /// exceeds it, so the fraction lies in `[0, 1]`.
    pub open spec fn well_formed(&self) -> bool {
        0 < self.denominator && self.numerator <= self.denominator
    }
}

/// Numerator of the one-shot progress value over denominator `period`:
/// the elapsed time, saturating at one full period.
pub open spec fn clamped_numerator(elapsed: int, period: int) -> int {
    if elapsed >= period {
        period
    } else {
        elapsed
    }
}

/// Numerator of the sawtooth progress value over denominator `period`:
/// the elapsed time within the current period.
pub open spec fn repeating_numerator(elapsed: int, period: int) -> int
    recommends
        period > 0,
{
    elapsed % period
}

/// Numerator of the triangle-wave progress value over denominator
/// `period`: the sawtooth value while the current period is an even one,
/// its mirror image while it is an odd one.
pub open spec fn oscillating_numerator(elapsed: int, period: int) -> int
    recommends
        period > 0,
{
    if (elapsed / period) % 2 == 0 {
        elapsed % period
    } else {
        period - elapsed % period
    }
}

/// One-shot progress: `elapsed / period`, clamped to a maximum of `1`.
/// Rises linearly from `0` at the start to `1` after one full period and
/// stays there.
pub fn proportion(elapsed_time_millis: u64, time_period_millis: u64) -> (r: Proportion)
    requires
        time_period_millis > 0,
    ensures
        r.denominator == time_period_millis,
        r.numerator == clamped_numerator(elapsed_time_millis as int, time_period_millis as int),
        r.well_formed(),
{
    let numerator: u64 = if elapsed_time_millis >= time_period_millis {
        time_period_millis
    } else {
        elapsed_time_millis
    };
    Proportion { numerator, denominator: time_period_millis }
}

/// Sawtooth progress: rises linearly from `0` to just under `1`, then
/// resets to `0` at each period boundary. The elapsed time is reduced
/// modulo the period in whole milliseconds, so the value at an exact
/// boundary is `0`.
pub fn repeating_proportion(elapsed_time_millis: u64, time_period_millis: u64) -> (r: Proportion)
    requires
        time_period_millis > 0,
    ensures
        r.denominator == time_period_millis,
        r.numerator == repeating_numerator(
            elapsed_time_millis as int,
            time_period_millis as int,
        ),
        r.numerator < r.denominator,
        r.well_formed(),
{
    Proportion {
        numerator: elapsed_time_millis % time_period_millis,
        denominator: time_period_millis,
    }
}

/// Triangle-wave progress: rises from `0` to `1` over the first period,
/// falls from `1` back to `0` over the second, and repeats with period
/// `2 * time_period_millis`.
pub fn oscillating_proportion(elapsed_time_millis: u64, time_period_millis: u64) -> (r: Proportion)
    requires
        time_period_millis > 0,
    ensures
        r.denominator == time_period_millis,
        r.numerator == oscillating_numerator(
            elapsed_time_millis as int,
            time_period_millis as int,
        ),
        r.well_formed(),
{
    let repeating = repeating_proportion(elapsed_time_millis, time_period_millis);
    let phase: u64 = (elapsed_time_millis / time_period_millis) % 2;
    if phase == 0 {
        repeating
    } else {
        Proportion {
            numerator: time_period_millis - repeating.numerator,
            denominator: time_period_millis,
        }
    }
}

/// The one-shot progress value stays within `[0, 1]` and saturates at
/// exactly `1` once a full period has elapsed.
pub proof fn lemma_proportion_bounds(elapsed: int, period: int)
    requires
        period > 0,
        elapsed >= 0,
    ensures
        0 <= clamped_numerator(elapsed, period) <= period,
        elapsed >= period ==> clamped_numerator(elapsed, period) == period,
{
}

/// The one-shot progress value is monotonically non-decreasing in the
/// elapsed time.
pub proof fn lemma_proportion_monotonic(elapsed1: int, elapsed2: int, period: int)
    requires
        period > 0,
        0 <= elapsed1 <= elapsed2,
    ensures
        clamped_numerator(elapsed1, period) <= clamped_numerator(elapsed2, period),
{
}

/// The sawtooth progress value is periodic: advancing the elapsed time by
/// one full period leaves it unchanged.
pub proof fn lemma_repeating_periodic(elapsed: int, period: int)
    requires
        period > 0,
        elapsed >= 0,
    ensures
        repeating_numerator(elapsed + period, period) == repeating_numerator(elapsed, period),
{
    lemma_mod_add_multiples_vanish(elapsed, period);
}

/// The triangle-wave progress value is periodic with period
/// `2 * period`: advancing the elapsed time by two full periods leaves it
/// unchanged.
pub proof fn lemma_oscillating_periodic(elapsed: int, period: int)
    requires
        period > 0,
        elapsed >= 0,
    ensures
        oscillating_numerator(elapsed + 2 * period, period) == oscillating_numerator(
            elapsed,
            period,
        ),
{
    lemma_mod_add_multiples_vanish(elapsed, period);
    lemma_mod_add_multiples_vanish(elapsed + period, period);
    lemma_div_plus_one(elapsed, period);
    lemma_div_plus_one(elapsed + period, period);
    assert((elapsed + 2 * period) / period == elapsed / period + 2);
    lemma_mod_add_multiples_vanish(elapsed / period, 2);
}

/// Within one double period the triangle wave has its expected shape: it
/// rises with the elapsed time over the first period and falls back
/// symmetrically over the second.
pub proof fn lemma_oscillating_triangle(elapsed: int, period: int)
    requires
        period > 0,
        elapsed >= 0,
    ensures
        elapsed < period ==> oscillating_numerator(elapsed, period) == elapsed,
        period <= elapsed < 2 * period ==> oscillating_numerator(elapsed, period) == 2 * period
            - elapsed,
{
    if elapsed < period {
        lemma_basic_div(elapsed, period);
        lemma_small_mod(elapsed as nat, period as nat);
    } else if elapsed < 2 * period {
        lemma_div_plus_one(elapsed - period, period);
        lemma_basic_div(elapsed - period, period);
        lemma_mod_add_multiples_vanish(elapsed - period, period);
        lemma_small_mod((elapsed - period) as nat, period as nat);
    }
}

} // verus!
