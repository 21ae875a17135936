//! Decoded instructions, as the decoder hands them to the execution engine,
//! and the faults that executing one can raise.

use vstd::prelude::*;
use crate::word::Half;

verus! {

/// What an instruction does.
#[derive(Clone, Copy, Debug, PartialEq, Eq)]
pub enum Operation {
    /// Copy the source into the destination.
    Mov,
    /// Add the source to the destination.
    Add,
    /// Subtract the source from the destination.
    Sub,
    /// Subtract the source from the destination for the flags alone.
    Compare,
    /// Branch if the zero flag is set.
    Je,
    /// Branch if the zero flag is clear.
    Jne,
    /// Branch if the parity flag is set.
    Jp,
    /// Branch if the parity flag is clear.
    Jnp,
    /// Branch if the overflow flag, standing for a borrow, is set.
    Jb,
    /// Branch if the overflow flag, standing for a borrow, is clear.
    Jnb,
    /// Count down and branch while the zero flag is set.
    Loopz,
    /// Count down and branch while the zero flag is clear.
    Loopnz,
    /// Any operation that the engine does not execute, by the decoder's code
    /// for it.
    Other(u32),
}

/// One operand of an instruction.
#[derive(Clone, Copy, Debug, PartialEq, Eq)]
pub enum Operand {
    /// A register, by its index. Byte-width operations address the byte that
    /// `half` selects; word-width operations ignore `half`.
    Register { index: u32, half: Half },
    /// A signed constant.
    Immediate { value: i32 },
    /// The memory cell at the value of the `base` register, if there is one,
    /// plus `displacement`.
    Memory { base: Option<u32>, displacement: i32 },
}

/// A decoded instruction.
#[derive(Debug, PartialEq, Eq)]
pub struct Instruction {
    /// What to do.
    pub op: Operation,
    /// Word width (`true`) or byte width (`false`).
    pub wide: bool,
    /// Encoded length in bytes, by which the instruction pointer advances.
    pub size: u32,
    /// Destination first, then source; a jump has its displacement alone.
    pub operands: Vec<Operand>,
}

impl Instruction {
    /// The operand at `position`, if the instruction has that many.
    pub open spec fn operand(self, position: int) -> Option<Operand> {
        if 0 <= position < self.operands@.len() {
            Some(self.operands@[position])
        } else {
            None
        }
    }

    /// Fetches the operand at `position`, if the instruction has that many.
    pub fn operand_at(&self, position: usize) -> (found: Option<Operand>)
        ensures
            found == self.operand(position as int),
    {
        if position < self.operands.len() {
            Some(self.operands[position])
        } else {
            None
        }
    }
}

/// Why an instruction could not be executed. Every fault ends the run: none is
/// retried or papered over.
#[derive(Clone, Copy, Debug, PartialEq, Eq)]
pub enum Fault {
    /// The operation is not one the engine executes.
    Unimplemented,
    /// An operand is missing or of a kind the operation does not take.
    IllegalOperand,
    /// A register index outside 1 to 13.
    RegisterOutOfRange,
    /// A memory cell that does not lie within memory.
    MemoryOutOfBounds,
    /// A backward branch to before address 0.
    BranchUnderflow,
}

} // verus!
