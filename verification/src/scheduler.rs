//! The playback scheduler.
//!
//! Chunks of audio are played back to back on the host's audio clock. The
//! scheduler keeps the moment at which the next chunk is due, and for each
//! chunk decides when it starts: when the previous one ends, but never
//! sooner than the host can prepare it.
//!
//! All moments are whole nanoseconds on the host's audio clock. Sums that
//! would not fit in 64 bits stay at the largest value.

use vstd::prelude::*;
use vstd::arithmetic::div_mod::lemma_div_nonincreasing;
use crate::underrun::{level_of, UnderrunLevel};

verus! {

/// Nanoseconds in a second.
pub const NANOS_PER_SECOND: u64 = 1_000_000_000;

/// The latency budget unless another is asked for: two frame intervals of a
/// 60 Hz display, in nanoseconds.
pub const LATENCY_BUDGET: u64 = 33_333_333;

/// `t` as a moment on the clock, held at the ends of the 64-bit range.
pub open spec fn saturate(t: int) -> u64 {
    if t < 0 {
        0
    } else if t > u64::MAX {
        u64::MAX
    } else {
        t as u64
    }
}

/// The earliest moment at which a chunk handed over at `now` may start.
pub open spec fn earliest_start(now: u64, latency: u64) -> u64 {
    saturate(now + latency)
}

/// How long `samples` samples play at `sample_rate` samples per second, in
/// whole nanoseconds, rounded down.
pub open spec fn chunk_duration(samples: nat, sample_rate: u32) -> nat {
    (samples * (NANOS_PER_SECOND as nat)) / (sample_rate as nat)
}

/// When a chunk handed over at `now` starts, if the chunk before it ends at
/// `clock`: the later of `clock` and the earliest possible start.
pub open spec fn start_of(clock: u64, now: u64, latency: u64) -> u64 {
    if earliest_start(now, latency) > clock {
        earliest_start(now, latency)
    } else {
        clock
    }
}

/// How far the playback clock was ahead of the earliest possible start when
/// a chunk was handed over at `now`; negative if playback had run dry.
pub open spec fn margin_of(clock: u64, now: u64, latency: u64) -> int {
    clock - earliest_start(now, latency)
}

/// The playback clock after a chunk of `samples` samples, handed over at
/// `now`, has been scheduled.
pub open spec fn clock_after(
    clock: u64,
    now: u64,
    latency: u64,
    samples: nat,
    sample_rate: u32,
) -> u64 {
    saturate(start_of(clock, now, latency) + chunk_duration(samples, sample_rate))
}

/// What the scheduler decided for one chunk.
#[derive(Clone, Copy, Debug, PartialEq, Eq, Structural)]
pub struct Scheduled {
    /// The moment at which the chunk starts to play.
    pub start: u64,
    /// How far the playback clock was ahead of the earliest possible start.
    pub margin: i128,
}

/// The moment at which the next chunk is due, and the latency budget.
pub struct PlaybackScheduler {
    clock: u64,
    latency: u64,
}

impl PlaybackScheduler {
    /// The moment at which the next chunk is due.
    pub closed spec fn clock(self) -> u64 {
        self.clock
    }

    /// The time that the host is given to prepare a chunk.
    pub closed spec fn latency(self) -> u64 {
        self.latency
    }

    /// A scheduler whose clock stands at 0.
    pub fn new(latency: u64) -> (scheduler: Self)
        ensures
            scheduler.clock() == 0,
            scheduler.latency() == latency,
    {
        PlaybackScheduler { clock: 0, latency }
    }

    /// The moment at which the next chunk is due.
    pub fn play_timestamp(&self) -> (t: u64)
        ensures
            t == self.clock(),
    {
        self.clock
    }

    /// The time that the host is given to prepare a chunk.
    pub fn latency_budget(&self) -> (t: u64)
        ensures
            t == self.latency(),
    {
        self.latency
    }

    /// Schedules a chunk of `samples` samples that was handed over when the
    /// host's audio clock read `now`, and moves the playback clock to the end
    /// of that chunk.
    pub fn schedule(&mut self, now: u64, samples: usize, sample_rate: u32) -> (decision: Scheduled)
        requires
            sample_rate > 0,
        ensures
            decision.start == start_of(old(self).clock(), now, old(self).latency()),
            decision.margin == margin_of(old(self).clock(), now, old(self).latency()),
            final(self).clock() == clock_after(
                old(self).clock(),
                now,
                old(self).latency(),
                samples as nat,
                sample_rate,
            ),
            final(self).latency() == old(self).latency(),
            final(self).clock() >= old(self).clock(),
            final(self).clock() >= decision.start >= now,
    {
        let earliest: u64 = now.saturating_add(self.latency);
        let margin: i128 = self.clock as i128 - earliest as i128;
        let start: u64 = if earliest > self.clock {
            earliest
        } else {
            self.clock
        };
        assert(samples * NANOS_PER_SECOND <= u64::MAX * NANOS_PER_SECOND) by (nonlinear_arith)
            requires
                samples <= u64::MAX,
        ;
        let span: u128 = samples as u128 * NANOS_PER_SECOND as u128;
        let duration: u128 = span / (sample_rate as u128);
        proof {
            lemma_div_nonincreasing(span as int, sample_rate as int);
        }
        let end: u128 = start as u128 + duration;
        self.clock = if end > u64::MAX as u128 {
            u64::MAX
        } else {
            end as u64
        };
        Scheduled { start, margin }
    }
}

/// One hand-over to the scheduler: the reading of the host's audio clock, the
/// number of samples in the chunk, and the sample rate.
pub struct Handover {
    pub now: u64,
    pub samples: nat,
    pub sample_rate: u32,
}

/// The playback clock after all of `handovers` have been scheduled, in order.
pub open spec fn clock_after_all(clock: u64, latency: u64, handovers: Seq<Handover>) -> u64
    decreases handovers.len(),
{
    if handovers.len() == 0 {
        clock
    } else {
        let h = handovers.last();
        clock_after(
            clock_after_all(clock, latency, handovers.drop_last()),
            h.now,
            latency,
            h.samples,
            h.sample_rate,
        )
    }
}

/// The playback clock just before hand-over `i` is scheduled.
pub open spec fn clock_before(clock: u64, latency: u64, handovers: Seq<Handover>, i: int) -> u64 {
    clock_after_all(clock, latency, handovers.take(i))
}

/// The margin that hand-over `i` finds.
pub open spec fn margin_at(clock: u64, latency: u64, handovers: Seq<Handover>, i: int) -> int {
    margin_of(clock_before(clock, latency, handovers, i), handovers[i].now, latency)
}

/// Scheduling a chunk never moves the playback clock back, whatever the
/// host's clock reads, and leaves it no earlier than that reading.
pub proof fn lemma_clock_never_goes_back(
    clock: u64,
    now: u64,
    latency: u64,
    samples: nat,
    sample_rate: u32,
)
    ensures
        clock_after(clock, now, latency, samples, sample_rate) >= clock,
        clock_after(clock, now, latency, samples, sample_rate) >= start_of(clock, now, latency),
        start_of(clock, now, latency) >= earliest_start(now, latency) >= now,
{
}

/// Over any run of hand-overs, with any readings of the host's clock, the
/// playback clock is non-decreasing: it is no earlier after `j` hand-overs
/// than after the first `i` of them.
pub proof fn lemma_clock_non_decreasing(
    clock: u64,
    latency: u64,
    handovers: Seq<Handover>,
    i: int,
    j: int,
)
    requires
        0 <= i <= j <= handovers.len(),
    ensures
        clock_before(clock, latency, handovers, i) <= clock_before(clock, latency, handovers, j),
    decreases j - i,
{
    if i < j {
        lemma_clock_non_decreasing(clock, latency, handovers, i, j - 1);
        let upto = handovers.take(j);
        let h = handovers[j - 1];
        assert(upto.last() == h);
        assert(upto.drop_last() =~= handovers.take(j - 1));
        lemma_clock_never_goes_back(
            clock_before(clock, latency, handovers, j - 1),
            h.now,
            latency,
            h.samples,
            h.sample_rate,
        );
    }
}

/// If every chunk is handed over so late that its earliest possible start
/// lies after the playback clock, then every hand-over finds a negative
/// margin and is classified as `High`: starvation that lasts is reported
/// every time.
pub proof fn lemma_starvation_stays_high(
    clock: u64,
    latency: u64,
    handovers: Seq<Handover>,
    i: int,
)
    requires
        0 <= i < handovers.len(),
        forall|k: int|
            0 <= k < handovers.len() ==> earliest_start((#[trigger] handovers[k]).now, latency)
                > clock_before(clock, latency, handovers, k),
    ensures
        margin_at(clock, latency, handovers, i) < 0,
        level_of(margin_at(clock, latency, handovers, i)) == UnderrunLevel::High,
{
}

} // verus!
