//! Adaptive pacing: a rolling window of the four most recent
//! `(buffer occupancy, arrival latency)` samples, and the delay formula
//! that decides how long the scheduler waits before polling again.
//!
//! The raw delay in milliseconds is `sum_occ / 24.8 + sum_lat / 4 - 5500`,
//! clamped to zero. To stay in integer arithmetic the whole expression is
//! scaled by 124: `raw = 5 * sum_occ + 31 * sum_lat - 682000`, and the
//! delay is `raw / 124` when positive, which is exactly the floor of the
//! unscaled formula.
use vstd::prelude::*;

verus! {

/// Milliseconds to wait while fewer than four samples have been recorded.
pub const DEFAULT_DELAY_MS: u64 = 5000;

/// Sum of the occupancy components of a window.
pub open spec fn sum_occupancy(w: Seq<(i64, i64)>) -> int
    decreases w.len(),
{
    if w.len() == 0 {
        0
    } else {
        w[0].0 + sum_occupancy(w.skip(1))
    }
}

/// Sum of the latency components of a window.
pub open spec fn sum_latency(w: Seq<(i64, i64)>) -> int
    decreases w.len(),
{
    if w.len() == 0 {
        0
    } else {
        w[0].1 + sum_latency(w.skip(1))
    }
}

/// The pacing formula, scaled by 124 to stay in integers.
pub open spec fn raw_delay_scaled(w: Seq<(i64, i64)>) -> int {
    5 * sum_occupancy(w) + 31 * sum_latency(w) - 682000
}

/// The delay in milliseconds decided by a window and a sample count:
/// the default until the window is full, then the clamped formula.
pub open spec fn delay_ms(w: Seq<(i64, i64)>, samples: nat) -> int {
    if samples < 4 {
        DEFAULT_DELAY_MS as int
    } else if raw_delay_scaled(w) <= 0 {
        0
    } else {
        raw_delay_scaled(w) / 124
    }
}

/// Rolling statistics: the four retained samples, oldest first, and how
/// many samples were ever recorded (saturating at four).
pub struct StateCollector {
    v: Vec<(i64, i64)>,
    n: u8,
}

impl StateCollector {
    /// The four retained samples, oldest first.
    pub closed spec fn window(&self) -> Seq<(i64, i64)> {
        self.v@
    }

    /// Samples recorded so far, saturating at four.
    pub closed spec fn samples(&self) -> nat {
        self.n as nat
    }

    pub open spec fn wf(&self) -> bool {
        self.window().len() == 4 && self.samples() <= 4
    }

    /// A fresh window of zero samples; `delay` yields the default until
    /// four real samples arrive.
    pub fn new() -> (stat: Self)
        ensures
            stat.wf(),
            stat.samples() == 0,
            stat.window() =~= seq![(0i64, 0i64), (0i64, 0i64), (0i64, 0i64), (0i64, 0i64)],
    {
        let mut v: Vec<(i64, i64)> = Vec::new();
        v.push((0, 0));
        v.push((0, 0));
        v.push((0, 0));
        v.push((0, 0));
        StateCollector { v, n: 0 }
    }

    /// Record one sample: the oldest retained sample is evicted and the
    /// new one enters at the back.
    pub fn add(&mut self, a: i64, b: i64)
        requires
            old(self).wf(),
        ensures
            final(self).wf(),
            final(self).window() == old(self).window().skip(1).push((a, b)),
            final(self).samples() == vstd::math::min(old(self).samples() as int + 1, 4),
    {
        let _ = self.v.remove(0);
        self.v.push((a, b));
        if self.n < 4 {
            self.n += 1;
        }
    }

    /// Overwrite every retained sample with `(a, b)` and treat the window
    /// as full.
    pub fn reset(&mut self, a: i64, b: i64)
        ensures
            final(self).wf(),
            final(self).window() =~= seq![(a, b), (a, b), (a, b), (a, b)],
            final(self).samples() == 4,
    {
        let mut v: Vec<(i64, i64)> = Vec::new();
        v.push((a, b));
        v.push((a, b));
        v.push((a, b));
        v.push((a, b));
        self.v = v;
        self.n = 4;
    }

    /// The next poll delay in milliseconds. Never negative, whatever the
    /// samples hold: a formula result at or below zero is clamped to zero.
    pub fn delay(&self) -> (ms: u64)
        requires
            self.wf(),
        ensures
            ms == delay_ms(self.window(), self.samples()),
            ms >= 0,
    {
        proof {
            lemma_sum_of_four(self.window());
        }
        if self.n < 4 {
            return DEFAULT_DELAY_MS;
        }
        let sum_occ: i128 = self.v[0].0 as i128 + self.v[1].0 as i128 + self.v[2].0 as i128
            + self.v[3].0 as i128;
        let sum_lat: i128 = self.v[0].1 as i128 + self.v[1].1 as i128 + self.v[2].1 as i128
            + self.v[3].1 as i128;
        let raw: i128 = 5 * sum_occ + 31 * sum_lat - 682000;
        if raw <= 0 {
            0
        } else {
            let d: u128 = (raw as u128) / 124;
            d as u64
        }
    }
}

/// On a full window the recursive sums unfold to the four components.
proof fn lemma_sum_of_four(w: Seq<(i64, i64)>)
    requires
        w.len() == 4,
    ensures
        sum_occupancy(w) == w[0].0 + w[1].0 + w[2].0 + w[3].0,
        sum_latency(w) == w[0].1 + w[1].1 + w[2].1 + w[3].1,
{
    let w1 = w.skip(1);
    let w2 = w1.skip(1);
    let w3 = w2.skip(1);
    let w4 = w3.skip(1);
    assert(w1[0] == w[1] && w2[0] == w[2] && w3[0] == w[3]);
    assert(w4.len() == 0);
    assert(sum_occupancy(w4) == 0);
    assert(sum_occupancy(w3) == w3[0].0 + sum_occupancy(w4));
    assert(sum_occupancy(w2) == w2[0].0 + sum_occupancy(w3));
    assert(sum_occupancy(w1) == w1[0].0 + sum_occupancy(w2));
    assert(sum_occupancy(w) == w[0].0 + sum_occupancy(w1));
    assert(sum_latency(w4) == 0);
    assert(sum_latency(w3) == w3[0].1 + sum_latency(w4));
    assert(sum_latency(w2) == w2[0].1 + sum_latency(w3));
    assert(sum_latency(w1) == w1[0].1 + sum_latency(w2));
    assert(sum_latency(w) == w[0].1 + sum_latency(w1));
}

/// The window after recording each sample of `samples` in order, starting
/// from window `w0`.
pub open spec fn record_window(w0: Seq<(i64, i64)>, samples: Seq<(i64, i64)>) -> Seq<(i64, i64)>
    decreases samples.len(),
{
    if samples.len() == 0 {
        w0
    } else {
        record_window(w0.skip(1).push(samples[0]), samples.skip(1))
    }
}

/// After four or more samples are recorded, the window holds exactly the
/// four most recent samples in order; everything older is discarded, and
/// the starting window no longer matters.
pub proof fn lemma_window_holds_latest_four(w0: Seq<(i64, i64)>, samples: Seq<(i64, i64)>)
    requires
        w0.len() == 4,
        samples.len() >= 4,
    ensures
        record_window(w0, samples) =~= samples.subrange(
            samples.len() - 4,
            samples.len() as int,
        ),
    decreases samples.len(),
{
    let w1 = w0.skip(1).push(samples[0]);
    assert(w1.len() == 4);
    if samples.len() == 4 {
        let s1 = samples.skip(1);
        let s2 = s1.skip(1);
        let s3 = s2.skip(1);
        let s4 = s3.skip(1);
        assert(s1[0] == samples[1] && s2[0] == samples[2] && s3[0] == samples[3]);
        let w2 = w1.skip(1).push(s1[0]);
        let w3 = w2.skip(1).push(s2[0]);
        let w4 = w3.skip(1).push(s3[0]);
        assert(s4.len() == 0);
        assert(record_window(w4, s4) == w4);
        assert(record_window(w3, s3) == record_window(w4, s4));
        assert(record_window(w2, s2) == record_window(w3, s3));
        assert(record_window(w1, s1) == record_window(w2, s2));
        assert(record_window(w0, samples) == record_window(w1, s1));
        assert(w4 =~= samples.subrange(0, 4));
    } else {
        lemma_window_holds_latest_four(w1, samples.skip(1));
        assert(samples.skip(1).subrange(samples.len() - 5, samples.len() - 1) =~= samples
            .subrange(samples.len() - 4, samples.len() as int));
    }
}

/// The computed delay is never negative, whatever the samples hold.
pub proof fn lemma_delay_nonnegative(w: Seq<(i64, i64)>, samples: nat)
    ensures
        delay_ms(w, samples) >= 0,
{
}

} // verus!
