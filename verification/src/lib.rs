//! Keeps the picture and the sound of an emulated console in step with the
//! host: converts finished frames for the display surface, cuts the stream
//! of audio samples into chunks and schedules them on the host's audio
//! clock, watches for underruns, and drives the console once per tick of the
//! host.

pub mod audio;
pub mod cartridge;
pub mod chunker;
pub mod controller;
pub mod display;
pub mod emulator;
pub mod engine;
pub mod scheduler;
pub mod underrun;

pub use audio::{Audio, Playback};
pub use controller::ControllerState;
pub use display::{height, width, PixelBuffer};
pub use emulator::{Emulator, EmulatorError, Phase, StepAction, StepEvent};
pub use underrun::{Thresholds, UnderrunLevel};
