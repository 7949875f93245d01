//! Synthetic metric sampling.
//!
//! Each tick of the measurement loop draws one sample of plausible network
//! metrics. Values are carried as unsigned fixed-point numbers in
//! thousandths of their unit (milliseconds for ping and jitter, Mbit/s for
//! the throughputs, a fraction for loss), so `15123` reads as `15.123`.
//! The composite quality score is computed by an outside scoring
//! collaborator from the raw metrics; `finish_sample` folds its result in
//! and substitutes the default score `0` when that computation failed, so
//! that sampling itself can never fail.

use vstd::prelude::*;

verus! {

/// One tick's raw metrics, in thousandths of their unit.
#[derive(Clone, Copy, Debug)]
pub struct RawSample {
    pub ping: u64,
    pub jitter: u64,
    pub down: u64,
    pub up: u64,
    pub loss: u64,
}

/// A raw sample plus the composite score, in thousandths.
#[derive(Clone, Copy, Debug)]
pub struct Sample {
    pub ping: u64,
    pub jitter: u64,
    pub down: u64,
    pub up: u64,
    pub loss: u64,
    pub vortex: u64,
}

/// The ranges that every drawn sample lies in: ping 15 to 20 ms, jitter 2
/// to 5 ms, download 450 to 500 Mbit/s, upload 200 to 230 Mbit/s, and loss
/// either none or a rare fixed burst of 0.2.
pub open spec fn raw_wf(r: RawSample) -> bool {
    &&& 15000 <= r.ping < 20000
    &&& 2000 <= r.jitter < 5000
    &&& 450000 <= r.down < 500000
    &&& 200000 <= r.up < 230000
    &&& (r.loss == 0 || r.loss == 200)
}

/// Relies on rand::random: draws one value of the given type from the
/// thread's generator; nothing is promised of the value.
pub assume_specification<T>[ rand::random::<T> ]() -> (r: T)
    where
        rand::distributions::Standard: rand::distributions::Distribution<T>,
;

/// An independent random draw, reduced to thousandths of the unit interval.
fn random_fraction() -> (f: u64)
    ensures
        f < 1000,
{
    let r: u32 = rand::random::<u32>();
    (r % 1000) as u64
}

/// Draw one raw sample. The exact values depend on the randomness; what is
/// promised is that they lie in the plausible ranges of `raw_wf`, and that
/// loss is exactly zero or the fixed burst value.
pub fn draw_raw() -> (r: RawSample)
    ensures
        raw_wf(r),
{
    let ping = 15000 + 5 * random_fraction();
    let jitter = 2000 + 3 * random_fraction();
    let down = 450000 + 50 * random_fraction();
    let up = 200000 + 30 * random_fraction();
    let loss: u64 = if random_fraction() >= 950 {
        200
    } else {
        0
    };
    RawSample { ping, jitter, down, up, loss }
}

/// Attach the outside collaborator's composite score to a raw sample. A
/// failed score computation (`None`) is replaced by the default score `0`
/// rather than surfaced: sampling never aborts the loop.
pub fn finish_sample(raw: &RawSample, score: Option<u64>) -> (s: Sample)
    ensures
        s.ping == raw.ping,
        s.jitter == raw.jitter,
        s.down == raw.down,
        s.up == raw.up,
        s.loss == raw.loss,
        s.vortex == match score {
            Some(v) => v,
            None => 0u64,
        },
{
    Sample {
        ping: raw.ping,
        jitter: raw.jitter,
        down: raw.down,
        up: raw.up,
        loss: raw.loss,
        vortex: match score {
            Some(v) => v,
            None => 0,
        },
    }
}

} // verus!
