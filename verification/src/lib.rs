//! An interpreter core for the CHIP-8 virtual machine.
//!
//! [`Emulator`] holds the machine: memory, registers, call stack, timers,
//! key latch and display. The host loads a program image, presses and
//! releases keys, calls [`Emulator::tick`] for each instruction and
//! [`Emulator::timer_tick`] sixty times a second, and reads the display.
//!
//! What each operation does is stated over [`Machine`], the machine's state
//! as mathematical values: `model` gives the meaning of every instruction,
//! `sprite` the geometry of drawing, `font` the built-in glyphs, and `laws`
//! the properties of the instruction set that follow.

pub mod emulator;
pub mod font;
pub mod laws;
pub mod model;
pub mod sprite;

pub use emulator::Emulator;
pub use model::Fault;
pub use model::Machine;
