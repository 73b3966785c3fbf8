//! Smoothed time-per-step estimate: an exponentially weighted moving average
//! over integer millisecond samples.
//!
//! Weights are carried in parts per thousand, so the arithmetic is exact
//! integer arithmetic throughout. While fewer than `RAMP_SAMPLES` samples have
//! been recorded the effective weight is raised toward the raw measurement,
//! so the estimate converges quickly while data is sparse; the very first
//! sample gets weight one and becomes the estimate exactly.

use vstd::prelude::*;

verus! {

/// Weights are fractions with this denominator (parts per thousand).
pub const WEIGHT_SCALE: u32 = 1000;

/// Number of samples over which the smoothing weight ramps down to `alpha`.
pub const RAMP_SAMPLES: u64 = 20;

/// Default smoothing weight: one tenth.
pub const DEFAULT_ALPHA_PM: u32 = 100;

/// Exponentially weighted moving average of step durations, in milliseconds.
///
/// `alpha_pm` is the steady-state smoothing weight in parts per thousand,
/// `value_ms` the current estimate and `n` the number of samples recorded
/// since the last reset.
#[derive(Clone, Copy, Debug, PartialEq, Eq, Structural)]
pub struct Ewma {
    pub alpha_pm: u32,
    pub value_ms: u64,
    pub n: u64,
}

/// The effective smoothing weight for the `n + 1`-th sample, in parts per
/// thousand: `alpha + (1 - alpha) / (n + 1)` while ramping, `alpha` from
/// `RAMP_SAMPLES` samples on. At `n == 0` the weight is the full scale, so
/// the first sample is taken verbatim.
pub open spec fn weight_spec(alpha_pm: u32, n: u64) -> int {
    if n < RAMP_SAMPLES {
        alpha_pm + (WEIGHT_SCALE - alpha_pm) / (n + 1) as int
    } else {
        alpha_pm as int
    }
}

/// A weighted mean of two non-negative values never exceeds the larger of
/// the two, each addend is non-negative and bounded, and with full weight
/// the mean is the first value exactly.
proof fn lemma_convex_combination(w: int, scale: int, a: int, b: int)
    requires
        0 <= w <= scale,
        0 < scale,
        0 <= a,
        0 <= b,
    ensures
        0 <= w * a <= scale * a,
        0 <= (scale - w) * b <= scale * b,
        w * a + (scale - w) * b <= scale * (if a >= b {
            a
        } else {
            b
        }),
        0 <= (w * a + (scale - w) * b) / scale <= (if a >= b {
            a
        } else {
            b
        }),
        w == scale ==> (w * a + (scale - w) * b) / scale == a,
{
    let mx = if a >= b {
        a
    } else {
        b
    };
    assert(0 <= w * a <= scale * a) by (nonlinear_arith)
        requires
            0 <= w <= scale,
            0 <= a,
    ;
    assert(0 <= (scale - w) * b <= scale * b) by (nonlinear_arith)
        requires
            0 <= w <= scale,
            0 <= b,
    ;
    assert(w * a + (scale - w) * b <= scale * mx) by (nonlinear_arith)
        requires
            0 <= w <= scale,
            0 <= a <= mx,
            0 <= b <= mx,
    ;
    assert(0 <= (w * a + (scale - w) * b) / scale <= mx) by (nonlinear_arith)
        requires
            0 <= w * a + (scale - w) * b <= scale * mx,
            0 < scale,
            0 <= mx,
    ;
    if w == scale {
        assert(w * a + (scale - w) * b == scale * a) by (nonlinear_arith)
            requires
                w == scale,
        ;
        assert(scale * a / scale == a) by (nonlinear_arith)
            requires
                0 < scale,
                0 <= a,
        ;
    }
}

/// The estimate after recording `sample` on top of `value`: the weighted
/// mean `(w * sample + (scale - w) * value) / scale`, rounded down.
pub open spec fn next_value_spec(alpha_pm: u32, n: u64, value: u64, sample: u64) -> int {
    (weight_spec(alpha_pm, n) * sample + (WEIGHT_SCALE - weight_spec(alpha_pm, n)) * value)
        / (WEIGHT_SCALE as int)
}

impl Ewma {
    /// The stored weight never exceeds the scale, so every weighted mean is
    /// a convex combination.
    pub open spec fn wf(self) -> bool {
        self.alpha_pm <= WEIGHT_SCALE
    }

    /// The estimator after one recorded sample. The sample count sticks at
    /// its maximum rather than wrapping; by then the weight has long been
    /// the steady-state `alpha_pm` anyway.
    pub open spec fn record_spec(self, sample: u64) -> Ewma {
        Ewma {
            alpha_pm: self.alpha_pm,
            value_ms: next_value_spec(self.alpha_pm, self.n, self.value_ms, sample) as u64,
            n: if self.n == u64::MAX {
                u64::MAX
            } else {
                (self.n + 1) as u64
            },
        }
    }

    /// A fresh estimator: no samples, zero estimate.
    pub fn new(alpha_pm: u32) -> (r: Ewma)
        requires
            alpha_pm <= WEIGHT_SCALE,
        ensures
            r == (Ewma { alpha_pm, value_ms: 0u64, n: 0u64 }),
            r.wf(),
    {
        Ewma { alpha_pm, value_ms: 0, n: 0 }
    }

    /// Record one step duration. The estimate becomes the weighted mean of
    /// the sample and the old estimate; the first sample after creation or
    /// reset becomes the estimate exactly.
    pub fn record(&mut self, sample: u64)
        requires
            old(self).wf(),
        ensures
            *final(self) == old(self).record_spec(sample),
            final(self).wf(),
            old(self).n == 0 ==> final(self).value_ms == sample,
            final(self).value_ms <= sample || final(self).value_ms <= old(self).value_ms,
    {
        let ghost prev = *self;
        let w: u64 = if self.n < RAMP_SAMPLES {
            (self.alpha_pm + (WEIGHT_SCALE - self.alpha_pm) / (self.n as u32 + 1)) as u64
        } else {
            self.alpha_pm as u64
        };
        proof {
            if prev.n < RAMP_SAMPLES {
                assert((WEIGHT_SCALE - prev.alpha_pm) / ((prev.n + 1) as int) <= WEIGHT_SCALE
                    - prev.alpha_pm) by (nonlinear_arith)
                    requires
                        prev.alpha_pm <= WEIGHT_SCALE,
                        prev.n >= 0,
                ;
            }
            assert(w == weight_spec(prev.alpha_pm, prev.n));
            assert(w <= WEIGHT_SCALE);
        }
        let scale: u64 = WEIGHT_SCALE as u64;
        proof {
            lemma_convex_combination(
                w as int,
                scale as int,
                sample as int,
                prev.value_ms as int,
            );
        }
        let mixed: u128 = (w as u128) * (sample as u128) + ((scale - w) as u128) * (self.value_ms
            as u128);
        self.value_ms = (mixed / (WEIGHT_SCALE as u128)) as u64;
        self.n = if self.n == u64::MAX {
            u64::MAX
        } else {
            self.n + 1
        };
        proof {
            if prev.n == 0 {
                vstd::arithmetic::div_mod::lemma_div_basics((WEIGHT_SCALE - prev.alpha_pm) as int);
                assert(weight_spec(prev.alpha_pm, 0) == WEIGHT_SCALE as int);
            }
        }
    }

    /// Discard all history: no samples, zero estimate. The next recorded
    /// sample will be taken verbatim, as a fresh first sample.
    pub fn reset(&mut self)
        ensures
            *final(self) == (Ewma { alpha_pm: old(self).alpha_pm, value_ms: 0u64, n: 0u64 }),
            final(self).n == 0,
            final(self).value_ms == 0,
    {
        self.n = 0;
        self.value_ms = 0;
    }

    /// The current estimate of time-per-step, in milliseconds.
    pub fn value(&self) -> (r: u64)
        ensures
            r == self.value_ms,
    {
        self.value_ms
    }

    /// The number of samples recorded since the last reset.
    pub fn sample_count(&self) -> (r: u64)
        ensures
            r == self.n,
    {
        self.n
    }
}

/// Resetting and then recording behaves exactly as a fresh first sample: the
/// estimate becomes the sample verbatim and the count restarts at one.
pub proof fn lemma_reset_then_record_is_first_sample(e: Ewma, sample: u64)
    requires
        e.wf(),
    ensures
        ({
            let fresh = Ewma { alpha_pm: e.alpha_pm, value_ms: 0u64, n: 0u64 };
            let after = fresh.record_spec(sample);
            after.value_ms == sample && after.n == 1
        }),
{
    let fresh = Ewma { alpha_pm: e.alpha_pm, value_ms: 0u64, n: 0u64 };
    assert(weight_spec(e.alpha_pm, 0) == WEIGHT_SCALE as int);
    assert(WEIGHT_SCALE * sample + 0 * 0 == WEIGHT_SCALE * sample) by (nonlinear_arith);
    assert(WEIGHT_SCALE * sample / (WEIGHT_SCALE as int) == sample as int) by (nonlinear_arith);
}

} // verus!
