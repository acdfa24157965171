//! The hardware side of a Space Invaders arcade board, each part with a
//! machine-checked contract:
//!
//! - [`memory`]: the program, working and video stores behind one
//!   mirrored 16 KB window;
//! - [`display`]: the picture of the video store on the turned monitor;
//! - [`shift_register`]: the shift-register chip;
//! - [`inputs`]: the three input latches and the buttons that move them;
//! - [`sound`]: the two sound latches and the events of their edges;
//! - [`clock`]: emulated time, the two interrupts of each frame, pacing;
//! - [`emulator`]: the board between two steps of its CPU;
//! - [`mirror`]: the frame that the presentation side shows;
//! - [`rom`]: the program image;
//! - [`layout`] and [`bits`]: the board's sizes, and single bits of a
//!   register byte.
//!
//! The CPU engine, the window, the audio device and the threads that tie
//! them together are not part of this crate. The board is driven from
//! outside: a caller steps its CPU engine, reports what the step did, and
//! carries out what [`emulator::Emulator::step`] answers.

pub mod bits;
pub mod clock;
pub mod display;
pub mod emulator;
pub mod inputs;
pub mod layout;
pub mod memory;
pub mod mirror;
pub mod rom;
pub mod shift_register;
pub mod sound;
