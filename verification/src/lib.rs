//! A virtual machine over a 15-bit word address space.
//!
//! Words 0..=32767 are literal values, 32768..=32775 address one of eight
//! registers, and anything above is invalid. The machine executes a fixed
//! 22-opcode instruction set with modulo-32768 arithmetic, a call/value
//! stack, a byte output buffer, and a byte input queue. Execution can
//! suspend when input is required and resume later without losing state.
//!
//! The module [`model`] gives the mathematical model: a [`model::MachineState`]
//! and a [`model::step`] function that says exactly what one fetch-decode-execute
//! cycle does. The executable [`computer::Computer`] is verified against that
//! model, and [`laws`] proves the machine's general properties from it.

pub mod computer;
pub mod laws;
pub mod model;

pub use computer::Computer;
pub use model::ExitCode;
