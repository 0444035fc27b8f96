//! Traffic-shape models: how a profile paces its packets.
//!
//! Each profile carries a delay range and a burst model; a draw is either a
//! burst delay near the minimum or a plain delay anywhere in the range.
//! Correctness of the protocol never depends on any particular timing.

use vstd::prelude::*;

use rand::rngs::OsRng;
use rand::Rng;

verus! {

/// A profile's pacing: delay bounds in milliseconds, the chance of a burst
/// in percent, and how many packets a burst sends together.
#[derive(Clone, Copy, Debug, PartialEq, Eq, Structural)]
pub struct TimingProfile {
    /// Smallest delay between packets, in milliseconds.
    pub min_delay_ms: u64,
    /// Largest delay between packets, in milliseconds.
    pub max_delay_ms: u64,
    /// Chance of a burst, in percent.
    pub burst_percent: u8,
    /// Packets per burst.
    pub burst_size: usize,
}

/// Draw a value uniformly below `bound`.
///
/// Relies on rand's `Rng::gen_range` over `0..bound`, which needs a
/// non-empty range and stays inside it.
#[verifier::external_body]
pub fn random_below(bound: u64) -> (r: u64)
    requires
        bound >= 1,
    ensures
        r < bound,
{
    OsRng.gen_range(0..bound)
}

/// Draw a boolean that is true about `percent` of the time.
///
/// Relies on rand's `Rng::gen_range`; nothing is promised of the outcome.
#[verifier::external_body]
pub fn random_percent(percent: u8) -> bool {
    OsRng.gen_range(0u32..100u32) < percent as u32
}

impl TimingProfile {
    /// A sound pacing model: a real range with room for the burst band.
    pub open spec fn wf(&self) -> bool {
        &&& self.min_delay_ms < self.max_delay_ms
        &&& self.min_delay_ms + 20 <= self.max_delay_ms
    }

    /// Video streaming: short delays, frequent bursts.
    pub fn video_streaming() -> (r: TimingProfile)
        ensures
            r == (TimingProfile {
                min_delay_ms: 10,
                max_delay_ms: 100,
                burst_percent: 70,
                burst_size: 5,
            }),
            r.wf(),
    {
        TimingProfile { min_delay_ms: 10, max_delay_ms: 100, burst_percent: 70, burst_size: 5 }
    }

    /// Audio streaming: steadier, longer delays, rare bursts.
    pub fn audio_streaming() -> (r: TimingProfile)
        ensures
            r == (TimingProfile {
                min_delay_ms: 50,
                max_delay_ms: 200,
                burst_percent: 30,
                burst_size: 2,
            }),
            r.wf(),
    {
        TimingProfile { min_delay_ms: 50, max_delay_ms: 200, burst_percent: 30, burst_size: 2 }
    }

    /// Web browsing: a wide mixed range.
    pub fn web_browsing() -> (r: TimingProfile)
        ensures
            r == (TimingProfile {
                min_delay_ms: 20,
                max_delay_ms: 500,
                burst_percent: 50,
                burst_size: 3,
            }),
            r.wf(),
    {
        TimingProfile { min_delay_ms: 20, max_delay_ms: 500, burst_percent: 50, burst_size: 3 }
    }

    /// Draw the next inter-packet delay, in milliseconds: with the burst
    /// chance a delay in `[min, min + 20)`, otherwise one in `[min, max)`.
    /// Either way it stays inside the profile's range.
    pub fn next_delay(&self) -> (d: u64)
        requires
            self.wf(),
        ensures
            self.min_delay_ms <= d < self.max_delay_ms,
    {
        let is_burst = random_percent(self.burst_percent);
        if is_burst {
            self.min_delay_ms + random_below(20)
        } else {
            self.min_delay_ms + random_below(self.max_delay_ms - self.min_delay_ms)
        }
    }

    /// Packets per burst.
    pub fn burst_size(&self) -> (r: usize)
        ensures
            r == self.burst_size,
    {
        self.burst_size
    }
}

} // verus!
