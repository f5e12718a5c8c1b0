//! An interpreter for the CHIP-8 virtual machine.
//!
//! [`chip8::Chip8`] owns the registers, the timers and the four parts of the
//! machine: [`memory::Memory`], [`stack::Stack`], [`display::Display`] and
//! [`keypad::Keypad`]. One call of `tick` fetches, decodes and executes one
//! instruction and lets both timers tick once.
//!
//! What each operation does is stated over [`machine::Machine`], the state of
//! the machine as plain mathematical values. `laws` and `sprite` hold what
//! follows from those statements.

pub mod chip8;
pub mod display;
pub mod fault;
pub mod instruction;
pub mod keypad;
pub mod laws;
pub mod machine;
pub mod memory;
pub mod sprite;
pub mod stack;
