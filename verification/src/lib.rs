//! An instruction-level emulator core for a 64-bit x86 CPU.
//!
//! The crate models the execution engine of an emulator: a register bank with
//! x86-64 sub-width aliasing rules, a segmented memory model made of disjoint
//! byte areas, an operand resolver, a status-flags engine, generic calculation
//! templates, and per-mnemonic instruction handlers (XOR, CMP, JE).
//!
//! Decoding raw bytes into structured instructions is outside this crate: the
//! host decodes and hands the core an [`operand::Instruction`] value, advances
//! the instruction pointer past the instruction, then calls
//! [`axecutor::Axecutor::step`].

pub mod axecutor;
pub mod cmp;
pub mod errors;
pub mod flags;
pub mod je;
pub mod calculate;
pub mod memory;
pub mod operand;
pub mod registers;
pub mod step;
pub mod xor;

pub use errors::AxError;
pub use errors::AxErrorKind;
