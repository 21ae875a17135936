//! Execution stage of an emulator for a subset of the 8086 instruction set.
//!
//! One decoded [`Instruction`](instruction::Instruction) at a time is applied
//! to a [`Simulator`](simulator::Simulator): general registers, a flags word,
//! an instruction pointer and a flat memory. What an instruction does is
//! defined by the mathematical transition [`step`](machine::step), and the
//! simulator is verified to make exactly that transition. The module
//! [`laws`] proves what follows from it for every machine and instruction.

pub mod word;
pub mod flags;
pub mod instruction;
pub mod registers;
pub mod memory;
pub mod alu;
pub mod control;
pub mod machine;
pub mod simulator;
pub mod laws;
