//! An interpreter for the MOS 6502 as the Nintendo Entertainment System
//! uses it, verified with Verus.
//!
//! [`machine`] defines what every instruction does to the registers and to
//! memory, as functions on a mathematical machine state. [`cpu`] and
//! [`instructions`] hold the executable interpreter, each function of which
//! is proved to compute what [`machine`] defines. [`bus`] decodes addresses
//! to the work RAM and the program ROM, [`opcodes`] is the instruction
//! table, and [`laws`] proves properties of the instruction set from the
//! definitions.
pub mod bus;
pub mod cpu;
pub mod flags;
pub mod instructions;
pub mod laws;
pub mod machine;
pub mod opcodes;
pub mod opscode;
pub mod ram;
pub mod registers;
pub mod rom;
