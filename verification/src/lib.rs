//! A CHIP-8 virtual machine: registers, memory, call stack, timers, keypad
//! and a monochrome display, advanced one instruction at a time, together
//! with a bounded history of snapshots for rewinding.
//!
//! - [`machine`] is the mathematical model: the state as sequences and
//!   integers, and every instruction as a function on it.
//! - [`chip8`] is the executable machine, specified against the model.
//! - [`display`] draws sprites on the pixel array.
//! - [`rewind`] is the history of snapshots.
//! - [`emulator`] holds the decisions of a driver loop: keys, pause,
//!   rewind, frames.
//! - [`laws`] states what holds of the instruction set as a whole.
//! - [`font`] is the built-in hexadecimal font, [`fault`] the faults.

pub mod fault;
pub mod font;
pub mod machine;
pub mod display;
pub mod chip8;
pub mod rewind;
pub mod laws;
pub mod emulator;

pub use chip8::Chip8;
pub use emulator::Emulator;
pub use fault::Chip8Error;
pub use rewind::Rewind;
