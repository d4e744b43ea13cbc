//! The audio path: chunker, scheduler and underrun monitor in one place.
//!
//! [`Audio`] takes samples one at a time. The push that completes a chunk
//! gives the chunk back; the caller reads the host's audio clock and hands
//! both to [`Audio::schedule`], which says when the chunk is to start and
//! remembers the worst underrun level seen since the level was last cleared.

use vstd::prelude::*;
use crate::chunker::{chunk_from_push, fills_chunk, queue_after_push, SampleQueue, CHUNK_SIZE};
use crate::scheduler::{
    clock_after, earliest_start, margin_of, start_of, PlaybackScheduler, LATENCY_BUDGET,
};
use crate::underrun::{level_with, standard_thresholds, Thresholds, UnderrunLevel};

verus! {

/// A number of samples per second that is not zero.
#[derive(Clone, Copy, Debug)]
struct SampleRate {
    hz: u32,
}

impl SampleRate {
    #[verifier::type_invariant]
    spec fn well_formed(self) -> bool {
        self.hz > 0
    }

    spec fn value(self) -> u32 {
        self.hz
    }

    fn hz(&self) -> (hz: u32)
        ensures
            hz == self.value(),
            hz > 0,
    {
        proof {
            use_type_invariant(self);
        }
        self.hz
    }
}

/// The count of scheduled chunks after one more; it wraps around at
/// `u64::MAX`.
pub open spec fn next_chunk_count(count: u64) -> u64 {
    if count == u64::MAX {
        0
    } else {
        (count + 1) as u64
    }
}

/// An order to the host's audio output: play `samples` at `sample_rate`,
/// starting when the host's audio clock reads `start`.
pub struct Playback {
    /// The samples of the chunk, oldest first.
    pub samples: Vec<u32>,
    /// Samples per second.
    pub sample_rate: u32,
    /// The moment at which the chunk starts, in nanoseconds.
    pub start: u64,
}

/// What an [`Audio`] stands for.
pub struct AudioState {
    /// The samples that wait to become a chunk, oldest first.
    pub waiting: Seq<u32>,
    /// The number of samples in a chunk.
    pub chunk_size: usize,
    /// Samples per second; never zero.
    pub sample_rate: u32,
    /// The time that the host is given to prepare a chunk.
    pub latency: u64,
    /// Where the underrun levels part.
    pub thresholds: Thresholds,
    /// The moment at which the next chunk is due.
    pub clock: u64,
    /// The worst level seen since the level was last cleared.
    pub underrun: UnderrunLevel,
    /// How many chunks have been scheduled, modulo 2^64.
    pub scheduled: u64,
}

impl AudioState {
    /// This state after `sample` has been pushed.
    pub open spec fn pushed(self, sample: u32) -> AudioState {
        AudioState {
            waiting: queue_after_push(self.waiting, self.chunk_size as nat, sample),
            ..self
        }
    }

    /// This state after a chunk of `samples` samples, handed over at `now`,
    /// has been scheduled.
    pub open spec fn scheduled_at(self, now: u64, samples: nat) -> AudioState {
        AudioState {
            clock: clock_after(self.clock, now, self.latency, samples, self.sample_rate),
            underrun: self.underrun.worse(
                level_with(margin_of(self.clock, now, self.latency), self.thresholds),
            ),
            scheduled: next_chunk_count(self.scheduled),
            ..self
        }
    }

    /// This state with the underrun level cleared.
    pub open spec fn cleared(self) -> AudioState {
        AudioState { underrun: UnderrunLevel::Clear, ..self }
    }
}

/// Scheduling a chunk never moves the playback clock back, leaves it no
/// earlier than the reading of the host's clock, and never lowers the
/// underrun level. A chunk that comes so late that its earliest possible
/// start lies after the playback clock raises the level to `High`.
pub proof fn lemma_scheduling_only_moves_forward(state: AudioState, now: u64, samples: nat)
    ensures
        state.scheduled_at(now, samples).clock >= state.clock,
        state.scheduled_at(now, samples).clock >= now,
        state.scheduled_at(now, samples).underrun.rank() >= state.underrun.rank(),
        earliest_start(now, state.latency) > state.clock ==> state.scheduled_at(
            now,
            samples,
        ).underrun == UnderrunLevel::High,
{
}

/// The state of the audio path.
pub struct Audio {
    queue: SampleQueue,
    scheduler: PlaybackScheduler,
    rate: SampleRate,
    thresholds: Thresholds,
    underrun: UnderrunLevel,
    scheduled: u64,
}

impl View for Audio {
    type V = AudioState;

    closed spec fn view(&self) -> AudioState {
        AudioState {
            waiting: self.queue@,
            chunk_size: self.queue.threshold(),
            sample_rate: self.rate.value(),
            latency: self.scheduler.latency(),
            thresholds: self.thresholds,
            clock: self.scheduler.clock(),
            underrun: self.underrun,
            scheduled: self.scheduled,
        }
    }
}

impl Audio {
    /// An audio path at `sample_rate` samples per second with the usual chunk
    /// size, latency budget and thresholds: nothing waiting, the playback
    /// clock at 0, no underrun, no chunk scheduled.
    pub fn new(sample_rate: u32) -> (audio: Self)
        requires
            sample_rate > 0,
        ensures
            audio@ == (AudioState {
                waiting: Seq::empty(),
                chunk_size: CHUNK_SIZE,
                sample_rate,
                latency: LATENCY_BUDGET,
                thresholds: standard_thresholds(),
                clock: 0,
                underrun: UnderrunLevel::Clear,
                scheduled: 0,
            }),
    {
        Audio::with_settings(sample_rate, CHUNK_SIZE, LATENCY_BUDGET, Thresholds::standard())
    }

    /// An audio path with a chunk size, a latency budget and thresholds of
    /// the caller's choosing. None of them can be changed afterwards.
    pub fn with_settings(
        sample_rate: u32,
        chunk_size: usize,
        latency: u64,
        thresholds: Thresholds,
    ) -> (audio: Self)
        requires
            sample_rate > 0,
        ensures
            audio@ == (AudioState {
                waiting: Seq::empty(),
                chunk_size,
                sample_rate,
                latency,
                thresholds,
                clock: 0,
                underrun: UnderrunLevel::Clear,
                scheduled: 0,
            }),
    {
        Audio {
            queue: SampleQueue::new(chunk_size),
            scheduler: PlaybackScheduler::new(latency),
            rate: SampleRate { hz: sample_rate },
            thresholds,
            underrun: UnderrunLevel::Clear,
            scheduled: 0,
        }
    }

    /// Samples per second; never zero.
    pub fn sample_rate(&self) -> (hz: u32)
        ensures
            hz == self@.sample_rate,
            hz > 0,
    {
        self.rate.hz()
    }

    /// The number of samples in a chunk.
    pub fn chunk_size(&self) -> (n: usize)
        ensures
            n == self@.chunk_size,
    {
        self.queue.chunk_size()
    }

    /// The number of samples that wait to become a chunk. It never reaches
    /// the chunk size.
    pub fn queued(&self) -> (n: usize)
        ensures
            n == self@.waiting.len(),
            n == 0 || n < self@.chunk_size,
    {
        self.queue.len()
    }

    /// Where the underrun levels part.
    pub fn thresholds(&self) -> (thresholds: Thresholds)
        ensures
            thresholds == self@.thresholds,
    {
        self.thresholds
    }

    /// The time that the host is given to prepare a chunk, in nanoseconds.
    pub fn latency_budget(&self) -> (t: u64)
        ensures
            t == self@.latency,
    {
        self.scheduler.latency_budget()
    }

    /// The moment at which the next chunk is due, in nanoseconds on the
    /// host's audio clock.
    pub fn play_timestamp(&self) -> (t: u64)
        ensures
            t == self@.clock,
    {
        self.scheduler.play_timestamp()
    }

    /// The worst underrun level seen since the level was last cleared.
    pub fn underrun(&self) -> (level: UnderrunLevel)
        ensures
            level == self@.underrun,
    {
        self.underrun
    }

    /// How many chunks have been scheduled, modulo 2^64.
    pub fn chunks_scheduled(&self) -> (count: u64)
        ensures
            count == self@.scheduled,
    {
        self.scheduled
    }

    /// Takes one sample from the console. If it completes a chunk, the chunk
    /// is returned, oldest sample first, and nothing is left waiting; the
    /// caller hands the chunk to [`Audio::schedule`].
    pub fn push_sample(&mut self, sample: u32) -> (chunk: Option<Vec<u32>>)
        ensures
            final(self)@ == old(self)@.pushed(sample),
            chunk is Some == fills_chunk(old(self)@.waiting.len(), old(self)@.chunk_size as nat),
            chunk matches Some(c) ==> Some(c@) == chunk_from_push(
                old(self)@.waiting,
                old(self)@.chunk_size as nat,
                sample,
            ),
    {
        self.queue.push(sample)
    }

    /// Schedules `chunk`, which was handed over when the host's audio clock
    /// read `now`. The chunk starts when the one before it ends, but no
    /// sooner than the latency budget after `now`. The playback clock moves
    /// to the end of the chunk, the margin that the chunk found is
    /// classified, and the worse of that level and the level so far is kept.
    pub fn schedule(&mut self, chunk: Vec<u32>, now: u64) -> (playback: Playback)
        ensures
            playback.samples == chunk,
            playback.sample_rate == old(self)@.sample_rate,
            playback.start == start_of(old(self)@.clock, now, old(self)@.latency),
            final(self)@ == old(self)@.scheduled_at(now, chunk@.len()),
    {
        let sample_rate = self.rate.hz();
        let decision = self.scheduler.schedule(now, chunk.len(), sample_rate);
        self.underrun = self.underrun.max(
            UnderrunLevel::classify_with(decision.margin, self.thresholds),
        );
        self.scheduled = if self.scheduled == u64::MAX {
            0
        } else {
            self.scheduled + 1
        };
        Playback { samples: chunk, sample_rate, start: decision.start }
    }

    /// Forgets the underrun level seen so far.
    pub fn clear_underrun(&mut self)
        ensures
            final(self)@ == old(self)@.cleared(),
    {
        self.underrun = UnderrunLevel::Clear;
    }
}

} // verus!
