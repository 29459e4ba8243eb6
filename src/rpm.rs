use vstd::prelude::*;
use crate::encoder::{EncoderData, DEFAULT_PULSES_PER_REVOLUTION};

verus! {

/// Period between two speed estimates.
pub const SAMPLE_PERIOD_MS: u64 = 250;

/// Whole revolutions per minute for `pulses` pulses in `elapsed_ms`
/// milliseconds: `(pulses / ppr) / (elapsed_ms / 1000) * 60`, rounded down.
pub open spec fn rpm_of(pulses: int, elapsed_ms: int, ppr: int) -> int {
    (pulses * 60000) / (ppr * elapsed_ms)
}

/// Periodic speed estimator over the pulse count.
#[derive(Clone, Copy, Debug, PartialEq, Eq, Structural)]
pub struct RpmEstimator {
    pub last_count: u32,
    pub last_time_ms: u64,
    pub pulses_per_revolution: u32,
}

impl RpmEstimator {
    pub open spec fn wf(&self) -> bool {
        self.pulses_per_revolution > 0
    }

    /// An estimator with the fitted encoder's calibration, started at `now_ms`.
    pub fn new(now_ms: u64) -> (r: RpmEstimator)
        ensures
            r.wf(),
            r == (RpmEstimator {
                last_count: 0,
                last_time_ms: now_ms,
                pulses_per_revolution: DEFAULT_PULSES_PER_REVOLUTION,
            }),
    {
        RpmEstimator {
            last_count: 0,
            last_time_ms: now_ms,
            pulses_per_revolution: DEFAULT_PULSES_PER_REVOLUTION,
        }
    }

    /// An estimator for an encoder with `pulses_per_revolution` pulses per turn.
    pub fn with_pulses_per_revolution(pulses_per_revolution: u32, now_ms: u64) -> (r: RpmEstimator)
        requires
            pulses_per_revolution > 0,
        ensures
            r.wf(),
            r == (RpmEstimator { last_count: 0, last_time_ms: now_ms, pulses_per_revolution }),
    {
        RpmEstimator { last_count: 0, last_time_ms: now_ms, pulses_per_revolution }
    }

    /// Pulses counted since the previous sample; none if the count went back.
    pub open spec fn pulses_since(&self, count: u32) -> int {
        if count >= self.last_count {
            count - self.last_count
        } else {
            0
        }
    }

    /// Milliseconds since the previous sample; none if the clock went back.
    pub open spec fn elapsed_since(&self, now_ms: u64) -> int {
        if now_ms >= self.last_time_ms {
            now_ms - self.last_time_ms
        } else {
            0
        }
    }

    /// Takes one sample of the pulse count at `now_ms`. When pulses were seen
    /// and time has passed, the speed is re-estimated; otherwise the previous
    /// estimate stays as it was. The sample becomes the new reference.
    pub fn sample(&mut self, data: &mut EncoderData, now_ms: u64)
        requires
            old(self).wf(),
        ensures
            final(self).wf(),
            *final(self) == (RpmEstimator {
                last_count: old(data).count,
                last_time_ms: now_ms,
                ..*old(self)
            }),
            ({
                let p = old(self).pulses_since(old(data).count);
                let t = old(self).elapsed_since(now_ms);
                *final(data) == (EncoderData {
                    rpm: if p > 0 && t > 0 {
                        rpm_of(p, t, old(self).pulses_per_revolution as int) as u64
                    } else {
                        old(data).rpm
                    },
                    ..*old(data)
                })
            }),
            old(self).pulses_since(old(data).count) == 0 ==> final(data).rpm == old(data).rpm,
    {
        let count = data.count;
        let pulses: u32 = if count >= self.last_count {
            count - self.last_count
        } else {
            0
        };
        let elapsed: u64 = if now_ms >= self.last_time_ms {
            now_ms - self.last_time_ms
        } else {
            0
        };
        if pulses > 0 && elapsed > 0 {
            let num: u128 = pulses as u128 * 60000;
            assert(self.pulses_per_revolution as int * elapsed as int <= 0xffff_ffff
                * 0xffff_ffff_ffff_ffff) by (nonlinear_arith)
                requires
                    self.pulses_per_revolution <= 0xffff_ffff,
                    elapsed <= 0xffff_ffff_ffff_ffff,
            ;
            let den: u128 = self.pulses_per_revolution as u128 * elapsed as u128;
            assert(den >= 1) by (nonlinear_arith)
                requires
                    self.pulses_per_revolution >= 1,
                    elapsed >= 1,
                    den == self.pulses_per_revolution as int * elapsed as int,
            ;
            let q = num / den;
            assert(q <= num) by (nonlinear_arith)
                requires
                    den >= 1,
                    num >= 0,
                    q == num / den,
            ;
            data.rpm = q as u64;
        }
        self.last_count = count;
        self.last_time_ms = now_ms;
    }
}

} // verus!
