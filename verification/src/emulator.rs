//! The driving loop.
//!
//! The host calls once per tick. A call drives the console for the time that
//! has passed, delivers the picture, and, if audio came close to running dry,
//! drives the console further ahead to win back margin.
//!
//! Driving the console and talking to the host happen outside this crate, so
//! the loop is laid out as a state machine. The caller reports what it has
//! done as a [`StepEvent`], and [`Emulator::step`] answers with the next
//! thing to do, a [`StepAction`]. A tick starts with `Begin` and ends when the
//! answer is `Finish`. An event that does not fit the phase ends the tick.

use vstd::prelude::*;
use crate::audio::{Audio, AudioState};
use crate::cartridge::{image_is_complete, is_loadable};
use crate::chunker::CHUNK_SIZE;
use crate::controller::{decode, ControllerState};
use crate::display::{PixelBuffer, DISPLAY_BYTES};
use crate::engine::{cart_of, console_of, new_console, read_cart, update_controller, with_buttons};
use crate::scheduler::LATENCY_BUDGET;
use crate::underrun::{standard_thresholds, UnderrunLevel};

verus! {

/// Why a request to the emulator failed.
#[derive(Clone, Copy, Debug, PartialEq, Eq, Structural)]
pub enum EmulatorError {
    /// The program image cannot be loaded.
    InvalidImage,
}

/// Where a tick stands.
#[derive(Clone, Copy, Debug, PartialEq, Eq, Structural)]
pub enum Phase {
    /// No tick is under way.
    Ready,
    /// The console is being driven for the time that has passed.
    Driving,
    /// The picture is being delivered.
    Presenting,
    /// The console is being driven ahead until a frame is finished or a chunk
    /// is scheduled.
    Recovering {
        /// Rounds still owed, this one included.
        rounds_left: u32,
        /// The frame count when this round began.
        frame_mark: u32,
        /// The count of scheduled chunks when this round began.
        chunk_mark: u64,
    },
}

/// What the caller reports.
#[derive(Clone, Copy, Debug, PartialEq, Eq, Structural)]
pub enum StepEvent {
    /// The host asks for a tick; `micros` microseconds have passed.
    Begin { micros: u32 },
    /// The console has been driven as asked.
    Advanced,
    /// The picture has been delivered.
    Presented,
    /// The display surface refused the picture.
    PresentFailed,
}

/// What the caller is to do next.
#[derive(Clone, Copy, Debug, PartialEq, Eq, Structural)]
pub enum StepAction {
    /// Drive the console by `micros` microseconds, then report `Advanced`.
    Advance { micros: u32 },
    /// Deliver the display buffer to the display surface, then report
    /// `Presented`.
    Present,
    /// Drive the console by one increment of its own choosing, then report
    /// `Advanced`.
    AdvanceOnce,
    /// The tick is over.
    Finish,
}

/// What an [`Emulator`] stands for.
pub struct EmulatorState {
    /// The bytes of the display buffer.
    pub display: Seq<u8>,
    /// How many frames have been converted, modulo 2^32.
    pub frames: u32,
    /// The audio path.
    pub audio: AudioState,
    /// The console, once an image has been loaded.
    pub console: Option<ludus::Console>,
    /// Where the tick stands.
    pub phase: Phase,
}

impl EmulatorState {
    /// Whether an image has been loaded.
    pub open spec fn running(self) -> bool {
        self.console is Some
    }

    /// This state in another phase.
    pub open spec fn in_phase(self, phase: Phase) -> EmulatorState {
        EmulatorState { phase, ..self }
    }

    /// This state at the end of a tick: the underrun level has been consumed.
    pub open spec fn finished(self) -> EmulatorState {
        EmulatorState { phase: Phase::Ready, audio: self.audio.cleared(), ..self }
    }

    /// This state at the start of a recovery round, with `rounds` rounds owed.
    pub open spec fn recovering(self, rounds: u32) -> EmulatorState {
        self.in_phase(
            Phase::Recovering {
                rounds_left: rounds,
                frame_mark: self.frames,
                chunk_mark: self.audio.scheduled,
            },
        )
    }

    /// Whether a frame has been finished or a chunk has been scheduled since
    /// the marks were taken.
    pub open spec fn progressed(self, frame_mark: u32, chunk_mark: u64) -> bool {
        self.frames != frame_mark || self.audio.scheduled != chunk_mark
    }

    /// The state after the picture has been delivered: a recovery round for
    /// each unit of underrun severity if there is any, else the end of the
    /// tick.
    pub open spec fn after_present(self) -> EmulatorState {
        if self.running() && self.audio.underrun.rank() > 0 {
            self.recovering(self.audio.underrun.rank() as u32)
        } else {
            self.finished()
        }
    }

    /// The state after the console has been driven by one increment during
    /// recovery. The round goes on until a frame is finished or a chunk is
    /// scheduled; then the next round begins, or the tick ends if none is
    /// owed.
    pub open spec fn after_recovery_advance(self) -> EmulatorState {
        match self.phase {
            Phase::Recovering { rounds_left, frame_mark, chunk_mark } => {
                if !self.running() {
                    self.finished()
                } else if !self.progressed(frame_mark, chunk_mark) {
                    self
                } else if rounds_left > 1 {
                    self.recovering((rounds_left - 1) as u32)
                } else {
                    self.finished()
                }
            },
            _ => self.in_phase(Phase::Ready),
        }
    }

    /// What the caller is to do after the console has been driven by one
    /// increment during recovery.
    pub open spec fn recovery_action(self) -> StepAction {
        match self.after_recovery_advance().phase {
            Phase::Recovering { .. } => StepAction::AdvanceOnce,
            _ => StepAction::Finish,
        }
    }

    /// The number of recovery rounds that are still owed.
    pub open spec fn rounds_owed(self) -> nat {
        match self.phase {
            Phase::Recovering { rounds_left, .. } => rounds_left as nat,
            _ => 0,
        }
    }

    /// The state after `event`. `Begin` starts a tick from any phase, and
    /// without a console ends it at once. Any other event that does not fit
    /// the phase ends the tick without clearing the underrun level.
    pub open spec fn after(self, event: StepEvent) -> EmulatorState {
        match event {
            StepEvent::Begin { micros } => {
                if self.running() {
                    self.in_phase(Phase::Driving)
                } else {
                    self.in_phase(Phase::Ready)
                }
            },
            StepEvent::Advanced => {
                match self.phase {
                    Phase::Driving => self.in_phase(Phase::Presenting),
                    _ => self.after_recovery_advance(),
                }
            },
            StepEvent::Presented => {
                match self.phase {
                    Phase::Presenting => self.after_present(),
                    _ => self.in_phase(Phase::Ready),
                }
            },
            StepEvent::PresentFailed => self.in_phase(Phase::Ready),
        }
    }

    /// What the caller is to do after `event`.
    pub open spec fn action(self, event: StepEvent) -> StepAction {
        match self.after(event).phase {
            Phase::Ready => StepAction::Finish,
            Phase::Driving => {
                match event {
                    StepEvent::Begin { micros } => StepAction::Advance { micros },
                    _ => StepAction::Finish,
                }
            },
            Phase::Presenting => StepAction::Present,
            Phase::Recovering { .. } => StepAction::AdvanceOnce,
        }
    }
}

/// A tick of an emulator without a console is over at once and changes
/// nothing but the phase.
pub proof fn lemma_idle_tick_does_nothing(state: EmulatorState, micros: u32)
    requires
        !state.running(),
    ensures
        state.action(StepEvent::Begin { micros }) == StepAction::Finish,
        state.after(StepEvent::Begin { micros }) == state.in_phase(Phase::Ready),
{
}

/// A tick of an emulator with a console drives the console for the time
/// asked for, zero included, and then delivers the picture.
pub proof fn lemma_tick_drives_then_presents(state: EmulatorState, micros: u32)
    requires
        state.running(),
    ensures
        state.action(StepEvent::Begin { micros }) == (StepAction::Advance { micros }),
        state.after(StepEvent::Begin { micros }).action(StepEvent::Advanced)
            == StepAction::Present,
        state.after(StepEvent::Begin { micros }).after(StepEvent::Advanced) == state.in_phase(
            Phase::Presenting,
        ),
{
}

/// Once the picture is delivered, as many recovery rounds are owed as the
/// underrun level is severe, three at most. If none is owed the tick is over
/// and the level is cleared.
pub proof fn lemma_rounds_follow_severity(state: EmulatorState)
    requires
        state.phase == Phase::Presenting,
        state.running(),
    ensures
        state.after(StepEvent::Presented).rounds_owed() == state.audio.underrun.rank(),
        state.after(StepEvent::Presented).rounds_owed() <= 3,
        state.audio.underrun.rank() > 0 ==> state.action(StepEvent::Presented)
            == StepAction::AdvanceOnce,
        state.audio.underrun.rank() == 0 ==> state.action(StepEvent::Presented)
            == StepAction::Finish && state.after(StepEvent::Presented) == state.finished(),
{
}

/// If the display surface refuses the picture the tick is given up: nothing
/// changes but the phase, the underrun level is kept for the next tick, and
/// the next tick starts as any other.
pub proof fn lemma_failed_present_gives_up(state: EmulatorState, micros: u32)
    ensures
        state.action(StepEvent::PresentFailed) == StepAction::Finish,
        state.after(StepEvent::PresentFailed) == state.in_phase(Phase::Ready),
        state.after(StepEvent::PresentFailed).after(StepEvent::Begin { micros }) == state.after(
            StepEvent::Begin { micros },
        ),
{
}

/// During recovery a round lasts until a frame is finished or a chunk is
/// scheduled, whichever comes first: without either nothing changes and the
/// console is driven once more; with either the next round begins, or, if
/// this round was the last one owed, the tick is over and the underrun level
/// is cleared.
pub proof fn lemma_round_ends_on_progress(
    state: EmulatorState,
    rounds_left: u32,
    frame_mark: u32,
    chunk_mark: u64,
)
    requires
        state.running(),
        state.phase == (Phase::Recovering { rounds_left, frame_mark, chunk_mark }),
    ensures
        !state.progressed(frame_mark, chunk_mark) ==> state.after(StepEvent::Advanced) == state
            && state.action(StepEvent::Advanced) == StepAction::AdvanceOnce,
        state.progressed(frame_mark, chunk_mark) && rounds_left > 1 ==> state.after(
            StepEvent::Advanced,
        ) == state.recovering((rounds_left - 1) as u32) && state.action(StepEvent::Advanced)
            == StepAction::AdvanceOnce,
        state.progressed(frame_mark, chunk_mark) && rounds_left <= 1 ==> state.after(
            StepEvent::Advanced,
        ) == state.finished() && state.action(StepEvent::Advanced) == StepAction::Finish,
        state.after(StepEvent::Advanced).rounds_owed() <= state.rounds_owed(),
{
}

/// The emulator: display buffer, audio path, console and the state of the
/// tick.
pub struct Emulator {
    pixels: PixelBuffer,
    audio: Audio,
    console: Option<ludus::Console>,
    phase: Phase,
}

impl View for Emulator {
    type V = EmulatorState;

    closed spec fn view(&self) -> EmulatorState {
        EmulatorState {
            display: self.pixels@,
            frames: self.pixels.frames(),
            audio: self.audio@,
            console: self.console,
            phase: self.phase,
        }
    }
}

impl Emulator {
    /// An emulator without a program: a blank display buffer, an audio path
    /// at `sample_rate` samples per second, no console, no tick under way.
    pub fn new(sample_rate: u32) -> (emulator: Self)
        requires
            sample_rate > 0,
        ensures
            emulator@ == (EmulatorState {
                display: Seq::new(DISPLAY_BYTES as nat, |k: int| 0u8),
                frames: 0,
                audio: AudioState {
                    waiting: Seq::empty(),
                    chunk_size: CHUNK_SIZE,
                    sample_rate,
                    latency: LATENCY_BUDGET,
                    thresholds: standard_thresholds(),
                    clock: 0,
                    underrun: UnderrunLevel::Clear,
                    scheduled: 0,
                },
                console: None,
                phase: Phase::Ready,
            }),
    {
        Emulator {
            pixels: PixelBuffer::new(),
            audio: Audio::new(sample_rate),
            console: None,
            phase: Phase::Ready,
        }
    }

    /// An emulator without a program around an audio path that the caller
    /// has made; the console will run at the sample rate of that path.
    pub fn with_audio(audio: Audio) -> (emulator: Self)
        ensures
            emulator@ == (EmulatorState {
                display: Seq::new(DISPLAY_BYTES as nat, |k: int| 0u8),
                frames: 0,
                audio: audio@,
                console: None,
                phase: Phase::Ready,
            }),
    {
        Emulator { pixels: PixelBuffer::new(), audio, console: None, phase: Phase::Ready }
    }

    /// Whether an image has been loaded.
    pub fn is_running(&self) -> (running: bool)
        ensures
            running == self@.running(),
    {
        self.console.is_some()
    }

    /// Where the tick stands.
    pub fn phase(&self) -> (phase: Phase)
        ensures
            phase == self@.phase,
    {
        self.phase
    }

    /// The display buffer.
    pub fn pixels(&self) -> (pixels: &PixelBuffer)
        ensures
            pixels@ == self@.display,
            pixels.frames() == self@.frames,
    {
        &self.pixels
    }

    /// The audio path.
    pub fn audio(&self) -> (audio: &Audio)
        ensures
            audio@ == self@.audio,
    {
        &self.audio
    }

    /// Tells the console which buttons are held, as the host reports them in
    /// one byte. Without a console nothing happens.
    pub fn update_buttons(&mut self, state: u8)
        ensures
            final(self)@ == (EmulatorState {
                console: match old(self)@.console {
                    Some(console) => Some(with_buttons(console, decode(state))),
                    None => None,
                },
                ..old(self)@
            }),
    {
        match &mut self.console {
            Some(console) => {
                update_controller(console, ControllerState::from_byte(state));
            },
            None => {},
        }
    }

    /// Loads a program image: a console built from the image replaces the
    /// one there was, if any. An image that cannot be loaded is refused and
    /// changes nothing.
    pub fn swap_cart(&mut self, rom: &[u8]) -> (loaded: Result<(), EmulatorError>)
        ensures
            loaded is Ok <==> is_loadable(rom@),
            loaded is Ok ==> final(self)@ == (EmulatorState {
                console: Some(console_of(cart_of(rom@), old(self)@.audio.sample_rate)),
                ..old(self)@
            }),
            loaded is Err ==> loaded == Err::<(), EmulatorError>(EmulatorError::InvalidImage)
                && *final(self) == *old(self),
    {
        if !image_is_complete(rom) || rom[4] == 0 {
            return Err(EmulatorError::InvalidImage);
        }
        match read_cart(rom) {
            Ok(cart) => {
                self.console = Some(new_console(cart, self.audio.sample_rate()));
                Ok(())
            },
            Err(_) => Err(EmulatorError::InvalidImage),
        }
    }

    /// The console together with the audio path and the display buffer that
    /// it fills while it is driven; nothing without a console.
    pub fn engine(&mut self) -> (parts: Option<(&mut ludus::Console, &mut Audio, &mut PixelBuffer)>)
        ensures
            parts is Some <==> old(self)@.running(),
            parts is None ==> *final(self) == *old(self),
            parts matches Some(p) ==> {
                &&& Some(*p.0) == old(self)@.console
                &&& p.1@ == old(self)@.audio
                &&& p.2@ == old(self)@.display
                &&& p.2.frames() == old(self)@.frames
                &&& final(self)@ == (EmulatorState {
                    display: final(p.2)@,
                    frames: final(p.2).frames(),
                    audio: final(p.1)@,
                    console: Some(*final(p.0)),
                    phase: old(self)@.phase,
                })
            },
    {
        match &mut self.console {
            Some(console) => Some((console, &mut self.audio, &mut self.pixels)),
            None => None,
        }
    }

    /// Decides how recovery goes on after the console has been driven by one
    /// increment: once more, if neither a frame was finished nor a chunk
    /// scheduled since the round began; otherwise into the next round, or to
    /// the end of the tick if no round is owed any more.
    pub fn step_until_audio_chunk_or_frame(&mut self) -> (action: StepAction)
        ensures
            final(self)@ == old(self)@.after_recovery_advance(),
            action == old(self)@.recovery_action(),
    {
        match self.phase {
            Phase::Recovering { rounds_left, frame_mark, chunk_mark } => {
                let frames = self.pixels.frame_count();
                let chunks = self.audio.chunks_scheduled();
                if self.console.is_none() {
                    self.finish()
                } else if frames == frame_mark && chunks == chunk_mark {
                    StepAction::AdvanceOnce
                } else if rounds_left > 1 {
                    self.phase = Phase::Recovering {
                        rounds_left: rounds_left - 1,
                        frame_mark: frames,
                        chunk_mark: chunks,
                    };
                    StepAction::AdvanceOnce
                } else {
                    self.finish()
                }
            },
            _ => {
                self.phase = Phase::Ready;
                StepAction::Finish
            },
        }
    }

    /// Moves the tick on by one event and says what to do next.
    pub fn step(&mut self, event: StepEvent) -> (action: StepAction)
        ensures
            final(self)@ == old(self)@.after(event),
            action == old(self)@.action(event),
    {
        match event {
            StepEvent::Begin { micros } => {
                if self.console.is_some() {
                    self.phase = Phase::Driving;
                    StepAction::Advance { micros }
                } else {
                    self.phase = Phase::Ready;
                    StepAction::Finish
                }
            },
            StepEvent::Advanced => {
                match self.phase {
                    Phase::Driving => {
                        self.phase = Phase::Presenting;
                        StepAction::Present
                    },
                    _ => self.step_until_audio_chunk_or_frame(),
                }
            },
            StepEvent::Presented => {
                match self.phase {
                    Phase::Presenting => {
                        let rounds = self.audio.underrun().severity();
                        if self.console.is_some() && rounds > 0 {
                            self.phase = Phase::Recovering {
                                rounds_left: rounds,
                                frame_mark: self.pixels.frame_count(),
                                chunk_mark: self.audio.chunks_scheduled(),
                            };
                            StepAction::AdvanceOnce
                        } else {
                            self.finish()
                        }
                    },
                    _ => {
                        self.phase = Phase::Ready;
                        StepAction::Finish
                    },
                }
            },
            StepEvent::PresentFailed => {
                self.phase = Phase::Ready;
                StepAction::Finish
            },
        }
    }

    fn finish(&mut self) -> (action: StepAction)
        ensures
            final(self)@ == old(self)@.finished(),
            action == StepAction::Finish,
    {
        self.audio.clear_underrun();
        self.phase = Phase::Ready;
        StepAction::Finish
    }
}

} // verus!
